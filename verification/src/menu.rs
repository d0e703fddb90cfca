use vstd::prelude::*;

use crate::states::{GameState, Interaction};

verus! {

/// The colours a menu button can take.
#[derive(Clone, Copy, Debug, PartialEq, Eq, Structural)]
pub enum ButtonShade {
    Primary,
    PrimaryHover,
    Secondary,
    SecondaryHover,
}

/// A button of the start menu: the primary one starts the game, the other
/// shows the credits.
#[derive(Clone, Copy, Debug, PartialEq, Eq, Structural)]
pub struct StartMenuButton {
    pub primary: bool,
}

/// What a button of the game over screen does.
#[derive(Clone, Copy, Debug, PartialEq, Eq, Structural)]
pub enum GameOverButtonAction {
    Restart,
    MainMenu,
}

/// The lives the player has left.
pub struct PlayerLives {
    pub count: u32,
}

/// The lives a new game starts with.
pub const STARTING_LIVES: u32 = 3;

/// The colour of a primary or secondary button given how the pointer interacts with it.
pub open spec fn shade_spec(interaction: Interaction, primary: bool) -> ButtonShade {
    match interaction {
        Interaction::Pressed | Interaction::Hovered => if primary {
            ButtonShade::PrimaryHover
        } else {
            ButtonShade::SecondaryHover
        },
        Interaction::Idle => if primary {
            ButtonShade::Primary
        } else {
            ButtonShade::Secondary
        },
    }
}

/// The colour of a primary or secondary button given how the pointer interacts with it.
pub fn button_shade(interaction: Interaction, primary: bool) -> (s: ButtonShade)
    ensures
        s == shade_spec(interaction, primary),
{
    match interaction {
        Interaction::Pressed | Interaction::Hovered => if primary {
            ButtonShade::PrimaryHover
        } else {
            ButtonShade::SecondaryHover
        },
        Interaction::Idle => if primary {
            ButtonShade::Primary
        } else {
            ButtonShade::Secondary
        },
    }
}

/// The tag of the last pressed button of `s`, if any.
pub open spec fn last_pressed<T>(s: Seq<(Interaction, T)>) -> Option<T>
    decreases s.len(),
{
    if s.len() == 0 {
        None
    } else if s.last().0 == Interaction::Pressed {
        Some(s.last().1)
    } else {
        last_pressed(s.drop_last())
    }
}

/// The screen a start menu button leads to.
pub open spec fn start_target(b: StartMenuButton) -> GameState {
    if b.primary {
        GameState::Playing
    } else {
        GameState::Credits
    }
}

/// The screen a game over button leads to.
pub open spec fn game_over_target(a: GameOverButtonAction) -> GameState {
    match a {
        GameOverButtonAction::Restart => GameState::Playing,
        GameOverButtonAction::MainMenu => GameState::StartMenu,
    }
}

/// Colours the start menu buttons and gives the screen that a press asks for
/// (the last pressed button wins): the game for the primary button, the
/// credits for the other.
pub fn update_start_menu_buttons(buttons: &Vec<(Interaction, StartMenuButton)>) -> (r: (
    Vec<ButtonShade>,
    Option<GameState>,
))
    ensures
        r.0@.len() == buttons@.len(),
        forall|i: int|
            0 <= i < buttons@.len() ==> #[trigger] r.0@[i] == shade_spec(
                buttons@[i].0,
                buttons@[i].1.primary,
            ),
        r.1 == match last_pressed(buttons@) {
            Some(b) => Some(start_target(b)),
            None => None,
        },
{
    let mut shades: Vec<ButtonShade> = Vec::new();
    let mut next: Option<GameState> = None;
    let n = buttons.len();
    let mut i: usize = 0;
    proof {
        assert(buttons@.take(0) =~= Seq::<(Interaction, StartMenuButton)>::empty());
    }
    while i < n
        invariant
            n == buttons@.len(),
            i <= n,
            shades@.len() == i,
            forall|k: int|
                0 <= k < i ==> #[trigger] shades@[k] == shade_spec(
                    buttons@[k].0,
                    buttons@[k].1.primary,
                ),
            next == match last_pressed(buttons@.take(i as int)) {
                Some(b) => Some(start_target(b)),
                None => None,
            },
        decreases n - i,
    {
        let (interaction, button) = buttons[i];
        shades.push(button_shade(interaction, button.primary));
        proof {
            assert(buttons@.take(i + 1).drop_last() =~= buttons@.take(i as int));
            assert(buttons@.take(i + 1).last() == buttons@[i as int]);
        }
        match interaction {
            Interaction::Pressed => {
                next = Some(
                    if button.primary {
                        GameState::Playing
                    } else {
                        GameState::Credits
                    },
                );
            },
            _ => {},
        }
        i = i + 1;
    }
    proof {
        assert(buttons@.take(n as int) =~= buttons@);
    }
    (shades, next)
}

/// Colours the back button of the credits and gives the screen that a press
/// asks for: the start menu.
pub fn update_credits_button(interactions: &Vec<Interaction>) -> (r: (
    Vec<ButtonShade>,
    Option<GameState>,
))
    ensures
        r.0@.len() == interactions@.len(),
        forall|i: int|
            0 <= i < interactions@.len() ==> #[trigger] r.0@[i] == shade_spec(
                interactions@[i],
                true,
            ),
        r.1 == if crate::states::any_pressed(interactions@) {
            Some(GameState::StartMenu)
        } else {
            None
        },
{
    let mut shades: Vec<ButtonShade> = Vec::new();
    let n = interactions.len();
    let mut i: usize = 0;
    while i < n
        invariant
            n == interactions@.len(),
            i <= n,
            shades@.len() == i,
            forall|k: int|
                0 <= k < i ==> #[trigger] shades@[k] == shade_spec(interactions@[k], true),
        decreases n - i,
    {
        shades.push(button_shade(interactions[i], true));
        i = i + 1;
    }
    let next = if crate::states::some_pressed(interactions) {
        Some(GameState::StartMenu)
    } else {
        None
    };
    (shades, next)
}

/// Colours the game over buttons and gives the screen that a press asks for
/// (the last pressed button wins): the game again for "restart", the start
/// menu for "main menu". Either press gives the player back all three lives.
pub fn update_game_over_buttons(
    buttons: &Vec<(Interaction, GameOverButtonAction)>,
    lives: &mut PlayerLives,
) -> (r: (Vec<ButtonShade>, Option<GameState>))
    ensures
        r.0@.len() == buttons@.len(),
        forall|i: int|
            0 <= i < buttons@.len() ==> #[trigger] r.0@[i] == shade_spec(
                buttons@[i].0,
                buttons@[i].1 == GameOverButtonAction::Restart,
            ),
        r.1 == match last_pressed(buttons@) {
            Some(a) => Some(game_over_target(a)),
            None => None,
        },
        final(lives).count == if last_pressed(buttons@) is Some {
            STARTING_LIVES
        } else {
            old(lives).count
        },
{
    let mut shades: Vec<ButtonShade> = Vec::new();
    let mut next: Option<GameState> = None;
    let n = buttons.len();
    let mut i: usize = 0;
    proof {
        assert(buttons@.take(0) =~= Seq::<(Interaction, GameOverButtonAction)>::empty());
    }
    while i < n
        invariant
            n == buttons@.len(),
            i <= n,
            shades@.len() == i,
            forall|k: int|
                0 <= k < i ==> #[trigger] shades@[k] == shade_spec(
                    buttons@[k].0,
                    buttons@[k].1 == GameOverButtonAction::Restart,
                ),
            next == match last_pressed(buttons@.take(i as int)) {
                Some(a) => Some(game_over_target(a)),
                None => None,
            },
            lives.count == if last_pressed(buttons@.take(i as int)) is Some {
                STARTING_LIVES
            } else {
                old(lives).count
            },
        decreases n - i,
    {
        let (interaction, action) = buttons[i];
        let primary = match action {
            GameOverButtonAction::Restart => true,
            GameOverButtonAction::MainMenu => false,
        };
        shades.push(button_shade(interaction, primary));
        proof {
            assert(buttons@.take(i + 1).drop_last() =~= buttons@.take(i as int));
            assert(buttons@.take(i + 1).last() == buttons@[i as int]);
        }
        match interaction {
            Interaction::Pressed => {
                lives.count = STARTING_LIVES;
                next = Some(
                    match action {
                        GameOverButtonAction::Restart => GameState::Playing,
                        GameOverButtonAction::MainMenu => GameState::StartMenu,
                    },
                );
            },
            _ => {},
        }
        i = i + 1;
    }
    proof {
        assert(buttons@.take(n as int) =~= buttons@);
    }
    (shades, next)
}

/// Whatever button of the game over screen is pressed last, a new game
/// starts with all its lives.
pub proof fn lemma_game_over_press_restores_lives(
    buttons: Seq<(Interaction, GameOverButtonAction)>,
    before: u32,
    after: u32,
)
    requires
        after == if last_pressed(buttons) is Some {
            STARTING_LIVES
        } else {
            before
        },
        exists|i: int| 0 <= i < buttons.len() && buttons[i].0 == Interaction::Pressed,
    ensures
        after == STARTING_LIVES,
{
    lemma_press_is_found(buttons);
}

/// A press anywhere in the list is found by looking from its end.
pub proof fn lemma_press_is_found<T>(buttons: Seq<(Interaction, T)>)
    requires
        exists|i: int| 0 <= i < buttons.len() && buttons[i].0 == Interaction::Pressed,
    ensures
        last_pressed(buttons) is Some,
    decreases buttons.len(),
{
    if buttons.last().0 != Interaction::Pressed {
        let i = choose|i: int| 0 <= i < buttons.len() && buttons[i].0 == Interaction::Pressed;
        let d = buttons.drop_last();
        assert(d[i].0 == Interaction::Pressed);
        lemma_press_is_found(d);
    }
}

} // verus!
