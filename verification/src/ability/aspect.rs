//! The aspects that classify an ability.
//!
//! Every aspect is a plain enumeration: abilities of mixed aspect are not
//! planned. In text, a set of aspects is the five digits of its members'
//! values, in the order aesthetics, element, method, morality, school.

use vstd::prelude::*;

use crate::context::Context;
use crate::element::Element;
use crate::entropy::random_between;
use crate::text::{digit, digit_text, digit_value, value_of_digit};
use crate::Randomizable;

verus! {

/// Largest value of `Aesthetics`.
pub const MAX_VAL_AESTHETICS: usize = 5;

/// Largest value of `Method`.
pub const MAX_VAL_METHOD: usize = 4;

/// Largest value of `Morality`.
pub const MAX_VAL_MORALITY: usize = 3;

/// Largest value of `School`.
pub const MAX_VAL_SCHOOL: usize = 7;

/// Number of characters in the text form of `Aspects`.
pub const ASPECT_CODE_LEN: usize = 5;

/// The aesthetics (coolness) of an ability.
#[derive(Debug, Copy, Clone, PartialEq, Eq, Hash, Structural)]
pub enum Aesthetics {
    Unset,
    Beautiful,
    Impressive,
    Erotic,
    Ugly,
    Subtle,
}

/// The method by which an ability is performed.
#[derive(Debug, Copy, Clone, PartialEq, Eq, Hash, Structural)]
pub enum Method {
    Unset,
    Staff,
    Wand,
    Manual,
    Vocal,
}

/// The morality of an ability.
#[derive(Debug, Copy, Clone, PartialEq, Eq, Hash, Structural)]
pub enum Morality {
    Unset,
    Good,
    Neutral,
    Evil,
}

/// The school of an ability.
#[derive(Debug, Copy, Clone, PartialEq, Eq, Hash, Structural)]
pub enum School {
    Unset,
    Destruction,
    Restoration,
    Conjuration,
    Alteration,
    Illusion,
    Nature,
    Song,
}

/// All aspect classifications of one ability.
#[derive(Debug, Copy, Clone, PartialEq, Eq, Hash, Structural)]
pub struct Aspects {
    pub aesthetics: Aesthetics,
    pub element: Element,
    pub method: Method,
    pub morality: Morality,
    pub school: School,
}

impl Aesthetics {
    pub open spec fn ordinal(self) -> int {
        match self {
            Aesthetics::Unset => 0,
            Aesthetics::Beautiful => 1,
            Aesthetics::Impressive => 2,
            Aesthetics::Erotic => 3,
            Aesthetics::Ugly => 4,
            Aesthetics::Subtle => 5,
        }
    }

    pub open spec fn at(ordinal: int) -> Aesthetics {
        if ordinal == 1 {
            Aesthetics::Beautiful
        } else if ordinal == 2 {
            Aesthetics::Impressive
        } else if ordinal == 3 {
            Aesthetics::Erotic
        } else if ordinal == 4 {
            Aesthetics::Ugly
        } else if ordinal == 5 {
            Aesthetics::Subtle
        } else {
            Aesthetics::Unset
        }
    }

    /// Numeric value of the aspect.
    pub fn index(self) -> (i: usize)
        ensures
            i == self.ordinal(),
            i <= MAX_VAL_AESTHETICS,
    {
        match self {
            Aesthetics::Unset => 0,
            Aesthetics::Beautiful => 1,
            Aesthetics::Impressive => 2,
            Aesthetics::Erotic => 3,
            Aesthetics::Ugly => 4,
            Aesthetics::Subtle => 5,
        }
    }

    /// The aspect with the given numeric value.
    pub fn from_index(src: usize) -> (a: Aesthetics)
        requires
            src <= MAX_VAL_AESTHETICS,
        ensures
            a == Aesthetics::at(src as int),
            a.ordinal() == src,
    {
        match src {
            0 => Aesthetics::Unset,
            1 => Aesthetics::Beautiful,
            2 => Aesthetics::Impressive,
            3 => Aesthetics::Erotic,
            4 => Aesthetics::Ugly,
            _ => Aesthetics::Subtle,
        }
    }
}

impl Method {
    pub open spec fn ordinal(self) -> int {
        match self {
            Method::Unset => 0,
            Method::Staff => 1,
            Method::Wand => 2,
            Method::Manual => 3,
            Method::Vocal => 4,
        }
    }

    pub open spec fn at(ordinal: int) -> Method {
        if ordinal == 1 {
            Method::Staff
        } else if ordinal == 2 {
            Method::Wand
        } else if ordinal == 3 {
            Method::Manual
        } else if ordinal == 4 {
            Method::Vocal
        } else {
            Method::Unset
        }
    }

    /// Numeric value of the aspect.
    pub fn index(self) -> (i: usize)
        ensures
            i == self.ordinal(),
            i <= MAX_VAL_METHOD,
    {
        match self {
            Method::Unset => 0,
            Method::Staff => 1,
            Method::Wand => 2,
            Method::Manual => 3,
            Method::Vocal => 4,
        }
    }

    /// The aspect with the given numeric value.
    pub fn from_index(src: usize) -> (m: Method)
        requires
            src <= MAX_VAL_METHOD,
        ensures
            m == Method::at(src as int),
            m.ordinal() == src,
    {
        match src {
            0 => Method::Unset,
            1 => Method::Staff,
            2 => Method::Wand,
            3 => Method::Manual,
            _ => Method::Vocal,
        }
    }
}

impl Morality {
    pub open spec fn ordinal(self) -> int {
        match self {
            Morality::Unset => 0,
            Morality::Good => 1,
            Morality::Neutral => 2,
            Morality::Evil => 3,
        }
    }

    pub open spec fn at(ordinal: int) -> Morality {
        if ordinal == 1 {
            Morality::Good
        } else if ordinal == 2 {
            Morality::Neutral
        } else if ordinal == 3 {
            Morality::Evil
        } else {
            Morality::Unset
        }
    }

    /// Numeric value of the aspect.
    pub fn index(self) -> (i: usize)
        ensures
            i == self.ordinal(),
            i <= MAX_VAL_MORALITY,
    {
        match self {
            Morality::Unset => 0,
            Morality::Good => 1,
            Morality::Neutral => 2,
            Morality::Evil => 3,
        }
    }

    /// The aspect with the given numeric value.
    pub fn from_index(src: usize) -> (m: Morality)
        requires
            src <= MAX_VAL_MORALITY,
        ensures
            m == Morality::at(src as int),
            m.ordinal() == src,
    {
        match src {
            0 => Morality::Unset,
            1 => Morality::Good,
            2 => Morality::Neutral,
            _ => Morality::Evil,
        }
    }
}

impl School {
    pub open spec fn ordinal(self) -> int {
        match self {
            School::Unset => 0,
            School::Destruction => 1,
            School::Restoration => 2,
            School::Conjuration => 3,
            School::Alteration => 4,
            School::Illusion => 5,
            School::Nature => 6,
            School::Song => 7,
        }
    }

    pub open spec fn at(ordinal: int) -> School {
        if ordinal == 1 {
            School::Destruction
        } else if ordinal == 2 {
            School::Restoration
        } else if ordinal == 3 {
            School::Conjuration
        } else if ordinal == 4 {
            School::Alteration
        } else if ordinal == 5 {
            School::Illusion
        } else if ordinal == 6 {
            School::Nature
        } else if ordinal == 7 {
            School::Song
        } else {
            School::Unset
        }
    }

    /// Numeric value of the aspect.
    pub fn index(self) -> (i: usize)
        ensures
            i == self.ordinal(),
            i <= MAX_VAL_SCHOOL,
    {
        match self {
            School::Unset => 0,
            School::Destruction => 1,
            School::Restoration => 2,
            School::Conjuration => 3,
            School::Alteration => 4,
            School::Illusion => 5,
            School::Nature => 6,
            School::Song => 7,
        }
    }

    /// The aspect with the given numeric value.
    pub fn from_index(src: usize) -> (s: School)
        requires
            src <= MAX_VAL_SCHOOL,
        ensures
            s == School::at(src as int),
            s.ordinal() == src,
    {
        match src {
            0 => School::Unset,
            1 => School::Destruction,
            2 => School::Restoration,
            3 => School::Conjuration,
            4 => School::Alteration,
            5 => School::Illusion,
            6 => School::Nature,
            _ => School::Song,
        }
    }
}

impl Default for Aesthetics {
    fn default() -> (a: Self)
        ensures
            a == Aesthetics::Unset,
    {
        Aesthetics::Unset
    }
}

impl Default for Method {
    fn default() -> (m: Self)
        ensures
            m == Method::Unset,
    {
        Method::Unset
    }
}

impl Default for Morality {
    fn default() -> (m: Self)
        ensures
            m == Morality::Unset,
    {
        Morality::Unset
    }
}

impl Default for School {
    fn default() -> (s: Self)
        ensures
            s == School::Unset,
    {
        School::Unset
    }
}

impl Randomizable for Aesthetics {
    open spec fn can_rand(ctx: &Context) -> bool {
        true
    }

    /// Draws any of the values, `Unset` included.
    fn rand(ctx: &Context) -> (a: Self) {
        Aesthetics::from_index(random_between(0, 6) as usize)
    }
}

impl Randomizable for Method {
    open spec fn can_rand(ctx: &Context) -> bool {
        true
    }

    /// Draws any of the values, `Unset` included.
    fn rand(ctx: &Context) -> (m: Self) {
        Method::from_index(random_between(0, 5) as usize)
    }
}

impl Randomizable for Morality {
    open spec fn can_rand(ctx: &Context) -> bool {
        true
    }

    /// Draws any of the values, `Unset` included.
    fn rand(ctx: &Context) -> (m: Self) {
        Morality::from_index(random_between(0, 4) as usize)
    }
}

impl Randomizable for School {
    open spec fn can_rand(ctx: &Context) -> bool {
        true
    }

    /// Draws any of the values, `Unset` included.
    fn rand(ctx: &Context) -> (s: Self) {
        School::from_index(random_between(0, 8) as usize)
    }
}

impl Aspects {
    /// The aspects with nothing chosen.
    pub open spec fn unset() -> Aspects {
        Aspects {
            aesthetics: Aesthetics::Unset,
            element: Element::Unset,
            method: Method::Unset,
            morality: Morality::Unset,
            school: School::Unset,
        }
    }

    /// Text form: one digit for each aspect's value.
    pub open spec fn code(self) -> Seq<char> {
        seq![
            digit(self.aesthetics.ordinal()),
            digit(self.element.ordinal()),
            digit(self.method.ordinal()),
            digit(self.morality.ordinal()),
            digit(self.school.ordinal()),
        ]
    }

    /// Whether a text begins with the text form of some aspects: five
    /// digits, the second at least one, none beyond the largest value of
    /// its aspect.
    pub open spec fn is_code(text: Seq<char>) -> bool {
        &&& text.len() >= ASPECT_CODE_LEN
        &&& digit_value(text[0]) <= MAX_VAL_AESTHETICS
        &&& 1 <= digit_value(text[1]) <= crate::element::NUM_ELEMENTS
        &&& digit_value(text[2]) <= MAX_VAL_METHOD
        &&& digit_value(text[3]) <= MAX_VAL_MORALITY
        &&& digit_value(text[4]) <= MAX_VAL_SCHOOL
    }

    /// The aspects that a text form stands for.
    pub open spec fn decoded(text: Seq<char>) -> Aspects {
        Aspects {
            aesthetics: Aesthetics::at(digit_value(text[0])),
            element: Element::at(digit_value(text[1])),
            method: Method::at(digit_value(text[2])),
            morality: Morality::at(digit_value(text[3])),
            school: School::at(digit_value(text[4])),
        }
    }

    /// Fully-qualified constructor.
    pub fn new(
        aesthetics: Aesthetics,
        element: Element,
        method: Method,
        morality: Morality,
        school: School,
    ) -> (a: Self)
        ensures
            a == (Aspects { aesthetics, element, method, morality, school }),
    {
        Aspects { aesthetics, element, method, morality, school }
    }

    /// Whether `from_code` accepts the text.
    pub fn is_valid_code(src: &str) -> (ok: bool)
        ensures
            ok == Aspects::is_code(src@),
    {
        if src.unicode_len() < ASPECT_CODE_LEN {
            return false;
        }
        let element = value_of_digit(src.get_char(1));
        value_of_digit(src.get_char(0)) <= MAX_VAL_AESTHETICS && 1 <= element && element
            <= crate::element::NUM_ELEMENTS && value_of_digit(src.get_char(2)) <= MAX_VAL_METHOD
            && value_of_digit(src.get_char(3)) <= MAX_VAL_MORALITY && value_of_digit(
            src.get_char(4),
        ) <= MAX_VAL_SCHOOL
    }

    /// Reads aspects from the first five characters of their text form.
    pub fn from_code(src: &str) -> (a: Self)
        requires
            Aspects::is_code(src@),
        ensures
            a == Aspects::decoded(src@),
    {
        Aspects {
            aesthetics: Aesthetics::from_index(value_of_digit(src.get_char(0))),
            element: Element::from_index(value_of_digit(src.get_char(1))),
            method: Method::from_index(value_of_digit(src.get_char(2))),
            morality: Morality::from_index(value_of_digit(src.get_char(3))),
            school: School::from_index(value_of_digit(src.get_char(4))),
        }
    }

    /// Writes the aspects in their text form.
    pub fn to_code(&self) -> (s: String)
        ensures
            s@ == self.code(),
    {
        let mut s = String::new();
        s.append(digit_text(self.aesthetics.index()));
        s.append(digit_text(self.element.index()));
        s.append(digit_text(self.method.index()));
        s.append(digit_text(self.morality.index()));
        s.append(digit_text(self.school.index()));
        assert(s@ =~= self.code());
        s
    }

    /// Aspects with an element set survive the way to text and back.
    pub proof fn lemma_code_round_trip(self)
        requires
            self.element != Element::Unset,
        ensures
            Aspects::is_code(self.code()),
            Aspects::decoded(self.code()) == self,
    {
    }
}

impl Default for Aspects {
    fn default() -> (a: Self)
        ensures
            a == Aspects::unset(),
    {
        Aspects {
            aesthetics: Aesthetics::Unset,
            element: Element::Unset,
            method: Method::Unset,
            morality: Morality::Unset,
            school: School::Unset,
        }
    }
}

impl Randomizable for Aspects {
    open spec fn can_rand(ctx: &Context) -> bool {
        true
    }

    /// Draws each aspect by itself. The element is always set.
    fn rand(ctx: &Context) -> (a: Self)
        ensures
            a.element != Element::Unset,
    {
        Aspects {
            aesthetics: Aesthetics::rand(ctx),
            element: Element::sample(),
            method: Method::rand(ctx),
            morality: Morality::rand(ctx),
            school: School::rand(ctx),
        }
    }
}

} // verus!
