//! Decisions of the application shell: tray menu entries, tray clicks, deep
//! links and second instances.

use vstd::prelude::*;

use crate::text::{begins_with, has_prefix, same_text};

verus! {

/// The address of the project's website.
pub const WEBSITE_URL: &'static str = "https://www.gitify.io/";

/// The address of the project's repository.
pub const REPOSITORY_URL: &'static str = "https://github.com/gitify-app/gitify";

/// Nanoseconds within which a second click on the tray icon is ignored.
pub const CLICK_DEBOUNCE_NANOS: u128 = 200_000_000;

/// Where the window goes when the screen cannot be measured.
pub const FALLBACK_WINDOW_X: i32 = 1200;

/// How far below the top of the screen the window goes: below the menu bar.
pub const WINDOW_Y: i32 = 40;

/// The width taken for a window that cannot be measured.
pub const FALLBACK_WINDOW_WIDTH: u32 = 500;

/// The space left between the window and the right edge of the screen.
pub const WINDOW_MARGIN: i64 = 20;

/// What an entry of the tray menu does.
#[derive(Debug, Clone, Copy, PartialEq, Eq, Structural)]
pub enum MenuAction {
    /// Leave the application.
    Quit,
    /// Open the website in the browser.
    OpenWebsite,
    /// Open the repository in the browser.
    OpenRepository,
    /// Check for updates, as the user's request.
    CheckForUpdates,
    /// Install the downloaded update and restart.
    RestartToUpdate,
    /// Reload the web view.
    Reload,
    /// Open the developer tools, or close them if they are open.
    ToggleDevtools,
    /// Tell the user interface to take a screenshot.
    TakeScreenshot,
    /// Tell the user interface to show the logs.
    ViewLogs,
    /// Tell the user interface to reset the application.
    Reset,
    /// The entry is not ours: do nothing.
    Ignore,
}

impl MenuAction {
    /// The action of the menu entry with the identifier `id`.
    pub open spec fn of(id: Seq<char>) -> MenuAction {
        if id == "quit"@ {
            MenuAction::Quit
        } else if id == "website"@ {
            MenuAction::OpenWebsite
        } else if id == "repository"@ {
            MenuAction::OpenRepository
        } else if id == "check-updates"@ {
            MenuAction::CheckForUpdates
        } else if id == "restart-to-update"@ {
            MenuAction::RestartToUpdate
        } else if id == "reload"@ {
            MenuAction::Reload
        } else if id == "devtools"@ {
            MenuAction::ToggleDevtools
        } else if id == "screenshot"@ {
            MenuAction::TakeScreenshot
        } else if id == "logs"@ {
            MenuAction::ViewLogs
        } else if id == "reset"@ {
            MenuAction::Reset
        } else {
            MenuAction::Ignore
        }
    }

    /// The event that tells the user interface of this action, for the three
    /// actions that the user interface carries out.
    pub open spec fn event(self) -> Option<Seq<char>> {
        match self {
            MenuAction::TakeScreenshot => Some("take-screenshot"@),
            MenuAction::ViewLogs => Some("view-logs"@),
            MenuAction::Reset => Some("reset-app"@),
            _ => None,
        }
    }

    /// The name of the event to emit for this action, if the user interface
    /// carries it out.
    pub fn event_name(self) -> (name: Option<&'static str>)
        ensures
            name.deep_view() == self.event(),
    {
        match self {
            MenuAction::TakeScreenshot => Some("take-screenshot"),
            MenuAction::ViewLogs => Some("view-logs"),
            MenuAction::Reset => Some("reset-app"),
            _ => None,
        }
    }
}

/// Reads the action of a tray menu entry from its identifier.
pub fn menu_action(id: &str) -> (action: MenuAction)
    ensures
        action == MenuAction::of(id@),
{
    if same_text(id, "quit") {
        MenuAction::Quit
    } else if same_text(id, "website") {
        MenuAction::OpenWebsite
    } else if same_text(id, "repository") {
        MenuAction::OpenRepository
    } else if same_text(id, "check-updates") {
        MenuAction::CheckForUpdates
    } else if same_text(id, "restart-to-update") {
        MenuAction::RestartToUpdate
    } else if same_text(id, "reload") {
        MenuAction::Reload
    } else if same_text(id, "devtools") {
        MenuAction::ToggleDevtools
    } else if same_text(id, "screenshot") {
        MenuAction::TakeScreenshot
    } else if same_text(id, "logs") {
        MenuAction::ViewLogs
    } else if same_text(id, "reset") {
        MenuAction::Reset
    } else {
        MenuAction::Ignore
    }
}

/// Whether a click on the tray icon counts, given the time since the click
/// that counted last, in nanoseconds: the first click counts, and later ones
/// count once more than the debounce time has passed.
pub fn accepts_click(since_last: Option<u128>) -> (accepted: bool)
    ensures
        accepted == match since_last {
            Some(nanos) => nanos > CLICK_DEBOUNCE_NANOS,
            None => true,
        },
{
    match since_last {
        Some(nanos) => nanos > CLICK_DEBOUNCE_NANOS,
        None => true,
    }
}

/// Where the window's left edge goes on a screen of the given width: a margin
/// away from the right edge, never left of the screen, and no further right
/// than a position can say.
pub open spec fn window_x(screen_width: int, window_width: int) -> int {
    let free = screen_width - window_width - WINDOW_MARGIN;
    if free <= 0 {
        0
    } else if free > i32::MAX {
        i32::MAX as int
    } else {
        free
    }
}

/// Where to put the window before it is shown: at the top right of the
/// screen, below the menu bar. Without the screen's width it goes to a fixed
/// place; without its own width it is taken to be of a standard width.
pub fn window_position(screen_width: Option<u32>, window_width: Option<u32>) -> (position: (
    i32,
    i32,
))
    ensures
        position.1 == WINDOW_Y,
        position.0 == match screen_width {
            Some(screen) => window_x(
                screen as int,
                match window_width {
                    Some(width) => width as int,
                    None => FALLBACK_WINDOW_WIDTH as int,
                },
            ),
            None => FALLBACK_WINDOW_X as int,
        },
{
    match screen_width {
        None => (FALLBACK_WINDOW_X, WINDOW_Y),
        Some(screen) => {
            let width: u32 = match window_width {
                Some(width) => width,
                None => FALLBACK_WINDOW_WIDTH,
            };
            let free: i64 = screen as i64 - width as i64 - WINDOW_MARGIN;
            if free <= 0 {
                (0, WINDOW_Y)
            } else if free > i32::MAX as i64 {
                (i32::MAX, WINDOW_Y)
            } else {
                (free as i32, WINDOW_Y)
            }
        },
    }
}

/// Whether `url` calls the application back from a sign-in.
pub open spec fn auth_callback(url: Seq<char>) -> bool {
    begins_with(url, "gitify://oauth"@) || begins_with(url, "gitify://callback"@)
}

/// Whether `url` is a deep link that calls the application back from a sign-in.
pub fn is_auth_callback(url: &str) -> (callback: bool)
    ensures
        callback == auth_callback(url@),
{
    has_prefix(url, "gitify://oauth") || has_prefix(url, "gitify://callback")
}

/// What to tell the user interface when a second instance was started.
#[derive(Debug, Clone, Copy, PartialEq, Eq, Structural)]
pub enum SecondInstance {
    /// The argument at this position is a sign-in callback: hand it on as
    /// such, and nothing else.
    AuthCallback(usize),
    /// Hand on all arguments.
    Arguments,
    /// There is nothing to hand on.
    Nothing,
}

/// What the arguments of a second instance come to: the first sign-in
/// callback among them; without one, the arguments as they are; nothing where
/// there are none.
pub open spec fn second_instance_of(args: Seq<Seq<char>>) -> SecondInstance {
    if exists|i: int| 0 <= i < args.len() && auth_callback(args[i]) {
        SecondInstance::AuthCallback(first_auth_callback(args) as usize)
    } else if args.len() > 0 {
        SecondInstance::Arguments
    } else {
        SecondInstance::Nothing
    }
}

/// The position of the first sign-in callback in `args`.
pub open spec fn first_auth_callback(args: Seq<Seq<char>>) -> int {
    choose|i: int|
        0 <= i < args.len() && auth_callback(args[i]) && forall|j: int|
            0 <= j < i ==> !auth_callback(#[trigger] args[j])
}

/// Decides what to tell the user interface of a second instance started with
/// `args`.
pub fn second_instance(args: &Vec<String>) -> (signal: SecondInstance)
    ensures
        signal == second_instance_of(args.deep_view()),
        signal matches SecondInstance::AuthCallback(at) ==> at < args.len() && auth_callback(
            args[at as int]@,
        ) && forall|j: int| 0 <= j < at ==> !auth_callback(#[trigger] args[j]@),
{
    let ghost views = args.deep_view();
    let mut i: usize = 0;
    while i < args.len()
        invariant
            i <= args.len(),
            views == args.deep_view(),
            forall|j: int| 0 <= j < i ==> !auth_callback(#[trigger] views[j]),
        decreases args.len() - i,
    {
        if is_auth_callback(args[i].as_str()) {
            assert(views[i as int] == args[i as int]@);
            let ghost first = first_auth_callback(views);
            assert(0 <= first < views.len() && auth_callback(views[first]) && forall|j: int|
                0 <= j < first ==> !auth_callback(#[trigger] views[j]));
            assert(first == i) by {
                if first < i {
                    assert(!auth_callback(views[first]));
                }
                if i < first {
                    assert(!auth_callback(views[i as int]));
                }
            }
            assert forall|j: int| 0 <= j < i implies !auth_callback(#[trigger] args[j]@) by {
                assert(views[j] == args[j]@);
            }
            return SecondInstance::AuthCallback(i);
        }
        assert(views[i as int] == args[i as int]@);
        i += 1;
    }
    if args.len() > 0 {
        SecondInstance::Arguments
    } else {
        SecondInstance::Nothing
    }
}

} // verus!
