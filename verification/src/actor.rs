//! Actors: whoever stands on the grid and acts through abilities.

use vstd::prelude::*;

use crate::ability::{ability_line, Ability, AbilityView, RANDOM_NAME_LEN};
use crate::context::Context;
use crate::coords::{cell_text, side_offset, CoordsError, Cube, Position, Translation};
use crate::entropy::{is_alphanumeric, is_random_uid, new_uid, random_name};
use crate::hex_directions::Side;
use crate::text::{decimal, decimal_text, uid_text, uuid_text};
use crate::{Plottable, Randomizable};

verus! {

/// Number of abilities that a randomly generated actor gets.
pub const RANDOM_ABILITY_COUNT: usize = 5;

/// The abilities of a list, as what each holds.
pub open spec fn ability_views(abilities: Seq<Ability>) -> Seq<AbilityView> {
    abilities.map_values(|a: Ability| a@)
}

/// What an `Actor` holds.
pub struct ActorView {
    pub uid: [u8; 16],
    pub name: Seq<char>,
    pub pos: Cube,
    pub cur_fatigue: u8,
    pub abilities: Seq<AbilityView>,
}

/// State of an actor.
#[derive(Debug)]
pub struct Actor {
    uid: [u8; 16],
    name: String,
    pos: Position,
    cur_fatigue: u8,
    abilities: Vec<Ability>,
}

impl View for Actor {
    type V = ActorView;

    closed spec fn view(&self) -> ActorView {
        ActorView {
            uid: self.uid,
            name: self.name@,
            pos: self.pos@,
            cur_fatigue: self.cur_fatigue,
            abilities: ability_views(self.abilities@),
        }
    }
}

impl Actor {
    /// Fully-qualified constructor. The identity is fresh.
    pub fn new(name: &'static str, pos: Position, cur_fatigue: u8, abilities: Vec<Ability>) -> (a:
        Self)
        ensures
            a@.name == name@,
            a@.pos == pos@,
            a@.cur_fatigue == cur_fatigue,
            a@.abilities == ability_views(abilities@),
            is_random_uid(a@.uid),
    {
        Actor { uid: new_uid(), name: name.to_owned(), pos, cur_fatigue, abilities }
    }

    /// An actor under an identity that it was given before, as when it is
    /// read back from a record.
    pub fn from_parts(
        uid: [u8; 16],
        name: String,
        pos: Position,
        cur_fatigue: u8,
        abilities: Vec<Ability>,
    ) -> (a: Self)
        ensures
            a@ == (ActorView {
                uid,
                name: name@,
                pos: pos@,
                cur_fatigue,
                abilities: ability_views(abilities@),
            }),
    {
        Actor { uid, name, pos, cur_fatigue, abilities }
    }

    /// Name-only constructor: the actor stands rested at the centre of the
    /// grid and has no ability.
    pub fn new_name_only(name: &'static str) -> (a: Self)
        ensures
            a@.name == name@,
            a@.pos == Cube::origin(),
            a@.cur_fatigue == 0,
            a@.abilities == Seq::<AbilityView>::empty(),
            is_random_uid(a@.uid),
    {
        let a = Actor {
            uid: new_uid(),
            name: name.to_owned(),
            pos: Position::default(),
            cur_fatigue: 0,
            abilities: Vec::new(),
        };
        assert(a@.abilities =~= Seq::<AbilityView>::empty());
        a
    }

    /// Names the actor.
    pub fn set_name(&mut self, name: &'static str)
        ensures
            final(self)@ == (ActorView { name: name@, ..old(self)@ }),
    {
        self.name = name.to_owned();
    }

    /// Moves the actor one cell across the given side, if there is a cell
    /// of the grid; otherwise the actor stays and `OutOfBounds` comes back.
    pub fn move_one_cell(&mut self, dir: Side, ctx: &Context) -> (r: Result<(), CoordsError>)
        ensures
            r is Ok <==> old(self)@.pos.plus(side_offset(dir)).within(ctx@.grid_radius as int)
                && old(self)@.pos.plus(side_offset(dir)).storable(),
            r is Ok ==> final(self)@ == (ActorView {
                pos: old(self)@.pos.plus(side_offset(dir)),
                ..old(self)@
            }),
            r is Err ==> final(self)@ == old(self)@,
            r matches Err(e) ==> e is OutOfBounds,
    {
        let trans = Translation::from(dir);
        self.pos.translate(&trans, ctx)
    }

    /// Adds an ability to the end of the actor's list.
    pub fn add_ability(&mut self, ability: Ability)
        ensures
            final(self)@ == (ActorView {
                abilities: old(self)@.abilities.push(ability@),
                ..old(self)@
            }),
    {
        self.abilities.push(ability);
        assert(ability_views(self.abilities@) =~= ability_views(old(self).abilities@).push(
            ability@,
        ));
    }

    /// The identity of the actor.
    pub fn uid(&self) -> (r: &[u8; 16])
        ensures
            *r == self@.uid,
    {
        &self.uid
    }

    /// The name of the actor.
    pub fn name(&self) -> (r: &String)
        ensures
            r@ == self@.name,
    {
        &self.name
    }

    /// The cell on which the actor stands.
    pub fn pos(&self) -> (r: &Position)
        ensures
            r@ == self@.pos,
    {
        &self.pos
    }

    /// The current fatigue of the actor.
    pub fn cur_fatigue(&self) -> (r: &u8)
        ensures
            *r == self@.cur_fatigue,
    {
        &self.cur_fatigue
    }

    /// The abilities of the actor, in the order in which they were added.
    pub fn abilities(&self) -> (r: &Vec<Ability>)
        ensures
            ability_views(r@) == self@.abilities,
    {
        &self.abilities
    }
}

/// The lines of the given abilities, each under the text of its own
/// identity.
pub open spec fn ability_lines(abilities: Seq<AbilityView>) -> Seq<Seq<char>> {
    Seq::new(abilities.len(), |i: int| ability_line(uuid_text(abilities[i].uid@), abilities[i]))
}

/// The given texts one after another, with nothing between them.
pub open spec fn run_together(texts: Seq<Seq<char>>) -> Seq<char>
    decreases texts.len(),
{
    if texts.len() == 0 {
        Seq::empty()
    } else {
        run_together(texts.drop_last()) + texts.last()
    }
}

/// The line of an actor: identity, name, position and fatigue with colons
/// between them, then a bar and the lines of its abilities, closed by a
/// semicolon where there is any ability.
pub open spec fn actor_line(uid: Seq<char>, a: ActorView) -> Seq<char> {
    uid + seq![':'] + a.name + seq![':'] + cell_text(a.pos) + seq![':'] + decimal(
        a.cur_fatigue as nat,
    ) + seq![':', '|'] + run_together(ability_lines(a.abilities)) + if a.abilities.len() > 0 {
        seq![';']
    } else {
        Seq::empty()
    }
}

impl Actor {
    /// Writes the line of the actor round the given text of its identity.
    pub fn line_with(&self, uid: &str) -> (s: String)
        ensures
            s@ == actor_line(uid@, self@),
    {
        proof {
            reveal_strlit(":");
            reveal_strlit(":|");
            reveal_strlit(";");
        }
        let mut s = uid.to_owned();
        s.append(":");
        s.append(self.name.as_str());
        s.append(":");
        s.append(self.pos.to_text().as_str());
        s.append(":");
        s.append(decimal_text(self.cur_fatigue as u64).as_str());
        s.append(":|");
        let ghost head = s@;
        let ghost lines = ability_lines(self@.abilities);
        let mut i: usize = 0;
        while i < self.abilities.len()
            invariant
                i <= self.abilities.len(),
                lines == ability_lines(self@.abilities),
                lines.len() == self.abilities.len(),
                s@ == head + run_together(lines.take(i as int)),
            decreases self.abilities.len() - i,
        {
            let line = self.abilities[i].to_text();
            s.append(line.as_str());
            proof {
                assert(self@.abilities[i as int] == self.abilities@[i as int]@);
                assert(lines.take(i + 1).drop_last() =~= lines.take(i as int));
                assert(lines.take(i + 1).last() == lines[i as int]);
            }
            i += 1;
        }
        assert(lines.take(i as int) =~= lines);
        if self.abilities.len() > 0 {
            s.append(";");
        }
        assert(s@ =~= actor_line(uid@, self@));
        s
    }

    /// Writes the line of the actor:
    /// `uid:name:position:fatigue:|abilities;`.
    pub fn to_text(&self) -> (s: String)
        ensures
            s@ == actor_line(uuid_text(self@.uid@), self@),
    {
        let uid = uid_text(&self.uid);
        self.line_with(uid.as_str())
    }
}

impl Plottable for Actor {
    fn origin(&self) -> (p: &Position)
        ensures
            p@ == self@.pos,
    {
        &self.pos
    }
}

impl Randomizable for Actor {
    /// An actor can be generated on any grid on which a cell can be drawn.
    open spec fn can_rand(ctx: &Context) -> bool {
        ctx@.can_place()
    }

    /// A rested actor with a fresh identity, a name of ten letters and
    /// digits, a cell of the grid and five random abilities.
    fn rand(ctx: &Context) -> (a: Self)
        ensures
            is_random_uid(a@.uid),
            a@.name.len() == RANDOM_NAME_LEN,
            forall|i: int| 0 <= i < a@.name.len() ==> is_alphanumeric(#[trigger] a@.name[i]),
            a@.pos.balanced(),
            a@.pos.within(ctx@.grid_radius as int),
            a@.cur_fatigue == 0,
            a@.abilities.len() == RANDOM_ABILITY_COUNT,
    {
        let uid = new_uid();
        let name = random_name(RANDOM_NAME_LEN);
        let pos = Position::rand(ctx);
        let cur_fatigue: u8 = 0;
        let mut abilities: Vec<Ability> = Vec::new();
        let mut i: usize = 0;
        while i < RANDOM_ABILITY_COUNT
            invariant
                i <= RANDOM_ABILITY_COUNT,
                abilities@.len() == i,
            decreases RANDOM_ABILITY_COUNT - i,
        {
            abilities.push(Ability::rand(ctx));
            i += 1;
        }
        Actor { uid, name, pos, cur_fatigue, abilities }
    }
}

} // verus!
