//! Bringing the application up.

use vstd::prelude::*;
use vstd::string::*;

use crate::text::join;

verus! {

/// Reverse-DNS application id used on the D-Bus session bus and for the compiled
/// resource path.
pub const APPLICATION_ID: &'static str = "org.example.AudioLibrary";

/// Prefix of the bundled resources inside the binary.
pub const RESOURCE_PREFIX: &'static str = "/org/example/AudioLibrary";

/// The name of the application.
pub const APPLICATION_NAME: &'static str = "Audio Library";

/// The environment variable that asks for an indicator without a window.
pub const BACKGROUND_VARIABLE: &'static str = "AUDIO_LIBRARY_BACKGROUND";

/// The resource path of the bundled stylesheet.
pub fn stylesheet() -> (r: String)
    ensures
        r@ == RESOURCE_PREFIX@ + "/style.css"@,
{
    join(RESOURCE_PREFIX, "/style.css")
}

/// What to do when the application is activated.
#[derive(Debug, Clone, Copy, PartialEq, Eq, Structural)]
pub enum ActivateStep {
    /// Show the window that exists.
    PresentExisting,
    /// Create the window and show it.
    CreateAndPresent,
    /// Create the window, but show only the indicator.
    CreateHidden,
}

/// What to do when the application is activated.
pub open spec fn activation(has_window: bool, background: Option<Seq<char>>) -> ActivateStep {
    if has_window {
        ActivateStep::PresentExisting
    } else if background == Some("1"@) {
        ActivateStep::CreateHidden
    } else {
        ActivateStep::CreateAndPresent
    }
}

/// Decide what to do when the application is activated: an existing window is
/// shown; a new one is shown too, unless `background`, the value of
/// [`BACKGROUND_VARIABLE`], is `1`.
pub fn on_activate(has_window: bool, background: Option<&str>) -> (r: ActivateStep)
    ensures
        r == if has_window {
            ActivateStep::PresentExisting
        } else if background is Some && background->0@ == "1"@ {
            ActivateStep::CreateHidden
        } else {
            ActivateStep::CreateAndPresent
        },
        r == activation(
            has_window,
            match background {
                Some(value) => Some(value@),
                None => None,
            },
        ),
{
    if has_window {
        return ActivateStep::PresentExisting;
    }
    match background {
        Some(value) => if value.to_owned() == "1".to_owned() {
            ActivateStep::CreateHidden
        } else {
            ActivateStep::CreateAndPresent
        },
        None => ActivateStep::CreateAndPresent,
    }
}

/// There is never a second window, and an existing one is always shown. A new one
/// is hidden exactly if the background was asked for by the value `1`.
pub proof fn law_activation_shows_the_one_window(has_window: bool, background: Option<Seq<char>>)
    ensures
        activation(has_window, background) is PresentExisting <==> has_window,
        activation(has_window, background) is CreateHidden <==> !has_window && background is Some
            && background->0.len() == 1 && background->0[0] == '1',
{
    reveal_strlit("1");
    if let Some(value) = background {
        if value.len() == 1 && value[0] == '1' {
            assert(value =~= "1"@);
        }
    }
}

} // verus!
