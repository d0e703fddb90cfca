use vstd::prelude::*;

verus! {

/// The top-level screens of the game.
#[derive(Clone, Copy, Debug, PartialEq, Eq, Structural)]
pub enum GameState {
    Loading,
    StartMenu,
    Playing,
    Credits,
    GameOver,
    Victory,
}

/// Whether the shelf drawer is pulled out (open) or resting at the right edge (closed).
#[derive(Clone, Copy, Debug, PartialEq, Eq, Structural)]
pub enum ShelfState {
    Closed,
    Open,
}

/// Whether the recipe book is pulled up (open) or resting below the screen (closed).
#[derive(Clone, Copy, Debug, PartialEq, Eq, Structural)]
pub enum BookState {
    Closed,
    Open,
}

impl GameState {
    /// The state that follows asset loading.
    pub fn initial() -> (s: GameState)
        ensures
            s == GameState::StartMenu,
    {
        GameState::StartMenu
    }
}

/// How the pointer is interacting with a button.
#[derive(Clone, Copy, Debug, PartialEq, Eq, Structural)]
pub enum Interaction {
    Pressed,
    Hovered,
    /// Neither pressed nor hovered.
    Idle,
}

impl ShelfState {
    /// The other position of the shelf.
    pub open spec fn toggled_spec(self) -> ShelfState {
        match self {
            ShelfState::Closed => ShelfState::Open,
            ShelfState::Open => ShelfState::Closed,
        }
    }

    /// The other position of the shelf.
    pub fn toggled(self) -> (s: ShelfState)
        ensures
            s == self.toggled_spec(),
    {
        match self {
            ShelfState::Closed => ShelfState::Open,
            ShelfState::Open => ShelfState::Closed,
        }
    }
}

impl BookState {
    /// The other position of the book.
    pub open spec fn toggled_spec(self) -> BookState {
        match self {
            BookState::Closed => BookState::Open,
            BookState::Open => BookState::Closed,
        }
    }

    /// The other position of the book.
    pub fn toggled(self) -> (s: BookState)
        ensures
            s == self.toggled_spec(),
    {
        match self {
            BookState::Closed => BookState::Open,
            BookState::Open => BookState::Closed,
        }
    }
}

/// Pulling a drawer twice puts it back where it was, and a pull always moves it.
pub proof fn lemma_toggle_twice(shelf: ShelfState, book: BookState)
    ensures
        shelf.toggled_spec().toggled_spec() == shelf,
        shelf.toggled_spec() != shelf,
        book.toggled_spec().toggled_spec() == book,
        book.toggled_spec() != book,
{
}

/// Whether some interaction in `s` is a press.
pub open spec fn any_pressed(s: Seq<Interaction>) -> bool {
    exists|i: int| 0 <= i < s.len() && s[i] == Interaction::Pressed
}

/// Whether some interaction in `v` is a press.
pub fn some_pressed(v: &Vec<Interaction>) -> (b: bool)
    ensures
        b == any_pressed(v@),
{
    let n = v.len();
    let mut i: usize = 0;
    while i < n
        invariant
            n == v@.len(),
            i <= n,
            forall|j: int| 0 <= j < i ==> v@[j] != Interaction::Pressed,
        decreases n - i,
    {
        match v[i] {
            Interaction::Pressed => {
                return true;
            },
            _ => {},
        }
        i = i + 1;
    }
    false
}

/// The shelf position asked for by the keyboard: the space bar pulls or pushes it.
pub fn handle_player_keyboard_shelf(current: ShelfState, space_pressed: bool) -> (r: Option<
    ShelfState,
>)
    ensures
        r == if space_pressed {
            Some(current.toggled_spec())
        } else {
            None
        },
{
    if space_pressed {
        Some(current.toggled())
    } else {
        None
    }
}

/// The shelf position asked for by its pull button: a press on it pulls or pushes it.
pub fn handle_shelf_button(current: ShelfState, interactions: &Vec<Interaction>) -> (r: Option<
    ShelfState,
>)
    ensures
        r == if any_pressed(interactions@) {
            Some(current.toggled_spec())
        } else {
            None
        },
{
    if some_pressed(interactions) {
        Some(current.toggled())
    } else {
        None
    }
}

/// The book position asked for by the keyboard: the B key pulls or pushes it.
pub fn handle_player_keyboard_book(current: BookState, b_pressed: bool) -> (r: Option<BookState>)
    ensures
        r == if b_pressed {
            Some(current.toggled_spec())
        } else {
            None
        },
{
    if b_pressed {
        Some(current.toggled())
    } else {
        None
    }
}

/// The book position asked for by its pull button: a press on it pulls or pushes it.
pub fn handle_book_button(current: BookState, interactions: &Vec<Interaction>) -> (r: Option<
    BookState,
>)
    ensures
        r == if any_pressed(interactions@) {
            Some(current.toggled_spec())
        } else {
            None
        },
{
    if some_pressed(interactions) {
        Some(current.toggled())
    } else {
        None
    }
}

} // verus!
