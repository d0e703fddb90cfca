use vstd::prelude::*;

use crate::states::ShelfState;

verus! {

/// The collision layers of the physics world.
#[derive(Clone, Copy, Debug, PartialEq, Eq, Structural)]
pub enum GameLayer {
    Default,
    Environment,
    TavernItem,
    ShelfItem,
    ShelfStructure,
}

/// Where a released item goes: the layers it belongs to, the layers it
/// collides with, and its depth.
pub struct ReleasePlacement {
    pub memberships: Vec<GameLayer>,
    pub filters: Vec<GameLayer>,
    pub z: i32,
}

/// Where an item released while the shelf is `shelf` goes: onto the shelf
/// (in front of it) when the shelf is out, into the tavern otherwise.
pub open spec fn is_release_placement(p: ReleasePlacement, shelf: ShelfState) -> bool {
    &&& shelf == ShelfState::Open ==> {
        &&& p.memberships@ == seq![GameLayer::ShelfItem]
        &&& p.filters@ == seq![
            GameLayer::Environment,
            GameLayer::ShelfItem,
            GameLayer::ShelfStructure,
        ]
        &&& p.z == 3
    }
    &&& shelf == ShelfState::Closed ==> {
        &&& p.memberships@ == seq![GameLayer::TavernItem]
        &&& p.filters@ == seq![GameLayer::Environment, GameLayer::TavernItem]
        &&& p.z == 1
    }
}

/// Where an item released while the shelf is `shelf` goes.
pub fn release_placement(shelf: ShelfState) -> (p: ReleasePlacement)
    ensures
        is_release_placement(p, shelf),
        shelf == ShelfState::Open ==> {
            &&& p.memberships@ == seq![GameLayer::ShelfItem]
            &&& p.filters@ == seq![
                GameLayer::Environment,
                GameLayer::ShelfItem,
                GameLayer::ShelfStructure,
            ]
            &&& p.z == 3
        },
        shelf == ShelfState::Closed ==> {
            &&& p.memberships@ == seq![GameLayer::TavernItem]
            &&& p.filters@ == seq![GameLayer::Environment, GameLayer::TavernItem]
            &&& p.z == 1
        },
{
    match shelf {
        ShelfState::Open => {
            let mut filters = Vec::new();
            filters.push(GameLayer::Environment);
            filters.push(GameLayer::ShelfItem);
            filters.push(GameLayer::ShelfStructure);
            let mut memberships = Vec::new();
            memberships.push(GameLayer::ShelfItem);
            proof {
                assert(filters@ =~= seq![
                    GameLayer::Environment,
                    GameLayer::ShelfItem,
                    GameLayer::ShelfStructure,
                ]);
                assert(memberships@ =~= seq![GameLayer::ShelfItem]);
            }
            ReleasePlacement { memberships, filters, z: 3 }
        },
        ShelfState::Closed => {
            let mut filters = Vec::new();
            filters.push(GameLayer::Environment);
            filters.push(GameLayer::TavernItem);
            let mut memberships = Vec::new();
            memberships.push(GameLayer::TavernItem);
            proof {
                assert(filters@ =~= seq![GameLayer::Environment, GameLayer::TavernItem]);
                assert(memberships@ =~= seq![GameLayer::TavernItem]);
            }
            ReleasePlacement { memberships, filters, z: 1 }
        },
    }
}

/// The first entity of `s` that can be dragged.
pub open spec fn first_draggable(s: Seq<(u64, bool)>) -> Option<u64>
    decreases s.len(),
{
    if s.len() == 0 {
        None
    } else if s[0].1 {
        Some(s[0].0)
    } else {
        first_draggable(s.drop_first())
    }
}

/// What a click does to the item under the cursor.
pub enum GrabAction {
    /// Drop the held item, placed as given; it falls again.
    Release(u64, ReleasePlacement),
    /// Pick up this item; it stops falling.
    Grab(u64),
    /// Nothing to do.
    Nothing,
}

/// What a left click does: it drops the held item, if any, and otherwise
/// picks up the first draggable item under the cursor. `under_cursor` lists
/// the entities under the cursor with whether each can be dragged.
pub fn handle_grab_and_release(
    clicked: bool,
    held: Option<u64>,
    shelf: ShelfState,
    under_cursor: &Vec<(u64, bool)>,
) -> (r: GrabAction)
    ensures
        !clicked ==> r is Nothing,
        clicked && held is Some ==> match r {
            GrabAction::Release(e, p) => e == held->0 && is_release_placement(p, shelf),
            _ => false,
        },
        clicked && held is None ==> match first_draggable(under_cursor@) {
            Some(e) => r matches GrabAction::Grab(g) && g == e,
            None => r is Nothing,
        },
{
    if !clicked {
        return GrabAction::Nothing;
    }
    match held {
        Some(e) => GrabAction::Release(e, release_placement(shelf)),
        None => {
            let n = under_cursor.len();
            let mut i: usize = 0;
            proof {
                assert(under_cursor@.skip(0) =~= under_cursor@);
            }
            while i < n
                invariant
                    clicked,
                    held is None,
                    n == under_cursor@.len(),
                    i <= n,
                    first_draggable(under_cursor@) == first_draggable(
                        under_cursor@.skip(i as int),
                    ),
                decreases n - i,
            {
                let (e, draggable) = under_cursor[i];
                proof {
                    let t = under_cursor@.skip(i as int);
                    assert(t[0] == under_cursor@[i as int]);
                    assert(t.drop_first() =~= under_cursor@.skip(i + 1));
                }
                if draggable {
                    return GrabAction::Grab(e);
                }
                i = i + 1;
            }
            GrabAction::Nothing
        },
    }
}

} // verus!
