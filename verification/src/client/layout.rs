//! The arithmetic and labels behind the client's fixed widgets.
use vstd::prelude::*;

verus! {

/// The exit prompt popup.
#[derive(Debug, Clone, Copy)]
pub struct ExitPopupWidget;

/// The height, in lines, of the exit prompt's text.
pub const EXIT_TEXT_HEIGHT: u16 = 1;

impl ExitPopupWidget {
    /// The percentage of the popup's inner height given to each of the two
    /// spacers that center the prompt vertically; none when the inner area
    /// is too small for the text, in which case the text goes at the top.
    pub fn spacer_percentage(&self, inner_height: u16) -> (r: Option<u16>)
        ensures
            inner_height >= EXIT_TEXT_HEIGHT ==> r == Some(
                ((100 - (EXIT_TEXT_HEIGHT as int) * 100 / (inner_height as int)) / 2) as u16,
            ),
            inner_height < EXIT_TEXT_HEIGHT ==> r is None,
    {
        if inner_height >= EXIT_TEXT_HEIGHT {
            Some((100 - (EXIT_TEXT_HEIGHT * 100 / inner_height)) / 2)
        } else {
            None
        }
    }
}

/// The frame of the main screen with its header line.
#[derive(Debug, Clone, Copy)]
pub struct MainLayoutWidget;

/// The texts of the header line: the authentication status, the user shown
/// and the stream status.
#[derive(Debug)]
pub struct HeaderLabels {
    pub status: String,
    pub user_name: String,
    pub stream: String,
}

impl MainLayoutWidget {
    /// The header texts for a session logged in as `maybe_username` (or not
    /// logged in) with the game stream active or not.
    pub fn header_labels(&self, maybe_username: Option<String>, is_stream_active: bool) -> (r: HeaderLabels)
        ensures
            r.status@ == if maybe_username is Some {
                "Authenticated"@
            } else {
                "Unauthenticated"@
            },
            r.user_name@ == match maybe_username {
                Some(name) => name@,
                None => "-"@,
            },
            r.stream@ == if is_stream_active {
                "Active"@
            } else {
                "Inactive"@
            },
    {
        let (status, user_name) = match maybe_username {
            Some(user_name) => ("Authenticated".to_owned(), user_name),
            None => ("Unauthenticated".to_owned(), "-".to_owned()),
        };
        let stream = if is_stream_active {
            "Active".to_owned()
        } else {
            "Inactive".to_owned()
        };
        HeaderLabels { status, user_name, stream }
    }
}

} // verus!
