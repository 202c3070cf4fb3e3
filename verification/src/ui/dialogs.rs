//! The dialogs: their texts and their choices.

use vstd::prelude::*;
use vstd::string::*;

use crate::text::{blank, join, law_trimmed_empty_iff_blank, trim};

verus! {

/// How a response button is drawn.
#[derive(Debug, Clone, Copy, PartialEq, Eq, Structural)]
pub enum Appearance {
    Default,
    Suggested,
    Destructive,
}

/// One choice of a dialog.
#[derive(Debug, Clone, Copy)]
pub struct Response {
    pub id: &'static str,
    pub label: &'static str,
    pub appearance: Appearance,
}

/// What a [`Response`] stands for.
pub struct ResponseView {
    pub id: Seq<char>,
    pub label: Seq<char>,
    pub appearance: Appearance,
}

impl View for Response {
    type V = ResponseView;

    open spec fn view(&self) -> ResponseView {
        ResponseView { id: self.id@, label: self.label@, appearance: self.appearance }
    }
}

/// A dialog with a heading, a text and a choice of responses.
#[derive(Debug)]
pub struct AlertDialog {
    pub heading: String,
    pub body: String,
    pub responses: Vec<Response>,
    /// The response of the return key.
    pub default_response: &'static str,
    /// The response of closing the dialog.
    pub close_response: &'static str,
}

/// What an [`AlertDialog`] stands for.
pub struct AlertDialogView {
    pub heading: Seq<char>,
    pub body: Seq<char>,
    pub responses: Seq<ResponseView>,
    pub default_response: Seq<char>,
    pub close_response: Seq<char>,
}

impl View for AlertDialog {
    type V = AlertDialogView;

    open spec fn view(&self) -> AlertDialogView {
        AlertDialogView {
            heading: self.heading@,
            body: self.body@,
            responses: self.responses@.map_values(|response: Response| response@),
            default_response: self.default_response@,
            close_response: self.close_response@,
        }
    }
}

/// A plain error dialog with a single "Close" button.
pub open spec fn error_dialog(title: Seq<char>, body: Seq<char>) -> AlertDialogView {
    AlertDialogView {
        heading: title,
        body,
        responses: seq![
            ResponseView { id: "close"@, label: "Close"@, appearance: Appearance::Default },
        ],
        default_response: "close"@,
        close_response: "close"@,
    }
}

/// A plain error dialog with a single "Close" button.
pub fn show_error(title: &str, body: &str) -> (r: AlertDialog)
    ensures
        r@ == (AlertDialogView {
            heading: title@,
            body: body@,
            responses: seq![
                ResponseView {
                    id: "close"@,
                    label: "Close"@,
                    appearance: Appearance::Default,
                },
            ],
            default_response: "close"@,
            close_response: "close"@,
        }),
        r@ == error_dialog(title@, body@),
{
    let mut responses: Vec<Response> = Vec::new();
    responses.push(Response { id: "close", label: "Close", appearance: Appearance::Default });
    let r = AlertDialog {
        heading: title.to_owned(),
        body: body.to_owned(),
        responses,
        default_response: "close",
        close_response: "close",
    };
    assert(r@.responses =~= seq![
        ResponseView { id: "close"@, label: "Close"@, appearance: Appearance::Default },
    ]);
    r
}

/// The text of the dialog about a missing file; the path is left out where it is
/// blank.
pub open spec fn missing_file_text(file_path: Seq<char>) -> Seq<char> {
    if blank(file_path) {
        "The audio file could not be found."@
    } else {
        "The audio file could not be found.\n\n"@ + file_path
    }
}

/// The dialog about a missing file.
pub open spec fn missing_file_dialog(file_path: Seq<char>) -> AlertDialogView {
    AlertDialogView {
        heading: "Audio file could not be found."@,
        body: missing_file_text(file_path),
        responses: seq![
            ResponseView { id: "cancel"@, label: "Cancel"@, appearance: Appearance::Suggested },
            ResponseView {
                id: "remove"@,
                label: "Remove Entry"@,
                appearance: Appearance::Destructive,
            },
        ],
        default_response: "cancel"@,
        close_response: "cancel"@,
    }
}

/// The dialog shown when a stored audio file no longer exists on disk.
///
/// Presents two choices:
/// * **Remove Entry** – the caller deletes the entry (see [`removes_entry`]).
/// * **Cancel** – leaves the entry untouched. The return key and closing the
///   dialog choose this one.
pub fn show_missing_file(file_path: &str) -> (r: AlertDialog)
    ensures
        r@ == (AlertDialogView {
            heading: "Audio file could not be found."@,
            body: missing_file_text(file_path@),
            responses: seq![
                ResponseView {
                    id: "cancel"@,
                    label: "Cancel"@,
                    appearance: Appearance::Suggested,
                },
                ResponseView {
                    id: "remove"@,
                    label: "Remove Entry"@,
                    appearance: Appearance::Destructive,
                },
            ],
            default_response: "cancel"@,
            close_response: "cancel"@,
        }),
        r@ == missing_file_dialog(file_path@),
        r@.default_response != "remove"@,
        r@.close_response != "remove"@,
{
    proof {
        law_trimmed_empty_iff_blank(file_path@);
        reveal_strlit("cancel");
        reveal_strlit("remove");
        assert("cancel"@[0] != "remove"@[0]);
    }
    let body: String = if trim(file_path).is_empty() {
        "The audio file could not be found.".to_owned()
    } else {
        join("The audio file could not be found.\n\n", file_path)
    };
    let mut responses: Vec<Response> = Vec::new();
    responses.push(Response { id: "cancel", label: "Cancel", appearance: Appearance::Suggested });
    responses.push(
        Response { id: "remove", label: "Remove Entry", appearance: Appearance::Destructive },
    );
    let r = AlertDialog {
        heading: "Audio file could not be found.".to_owned(),
        body,
        responses,
        default_response: "cancel",
        close_response: "cancel",
    };
    assert(r@.responses =~= seq![
        ResponseView { id: "cancel"@, label: "Cancel"@, appearance: Appearance::Suggested },
        ResponseView {
            id: "remove"@,
            label: "Remove Entry"@,
            appearance: Appearance::Destructive,
        },
    ]);
    r
}

/// Whether a response to the dialog about a missing file asks to remove the
/// entry.
pub open spec fn asks_to_remove(response: Seq<char>) -> bool {
    response == "remove"@
}

/// Whether a response to the dialog about a missing file asks to remove the
/// entry.
pub fn removes_entry(response: &str) -> (r: bool)
    ensures
        r == (response@ == "remove"@),
        r == asks_to_remove(response@),
{
    response.to_owned() == "remove".to_owned()
}

/// A dialog for choosing a file.
#[derive(Debug)]
pub struct FileDialog {
    pub title: &'static str,
    pub accept_label: &'static str,
    pub filter_name: &'static str,
    pub mime_types: Vec<&'static str>,
    pub patterns: Vec<&'static str>,
}

/// What a [`FileDialog`] stands for.
pub struct FileDialogView {
    pub title: Seq<char>,
    pub accept_label: Seq<char>,
    pub filter_name: Seq<char>,
    pub mime_types: Seq<Seq<char>>,
    pub patterns: Seq<Seq<char>>,
}

impl View for FileDialog {
    type V = FileDialogView;

    open spec fn view(&self) -> FileDialogView {
        FileDialogView {
            title: self.title@,
            accept_label: self.accept_label@,
            filter_name: self.filter_name@,
            mime_types: self.mime_types@.map_values(|text: &'static str| text@),
            patterns: self.patterns@.map_values(|text: &'static str| text@),
        }
    }
}

/// The dialog for choosing an MP3 file: by either of two MIME types, or by name.
pub fn choose_mp3() -> (r: FileDialog)
    ensures
        r@ == (FileDialogView {
            title: "Choose an MP3 file"@,
            accept_label: "Choose"@,
            filter_name: "MP3 audio"@,
            mime_types: seq!["audio/mpeg"@, "audio/mp3"@],
            patterns: seq!["*.mp3"@],
        }),
{
    let mut mime_types: Vec<&'static str> = Vec::new();
    mime_types.push("audio/mpeg");
    mime_types.push("audio/mp3");
    let mut patterns: Vec<&'static str> = Vec::new();
    patterns.push("*.mp3");
    let r = FileDialog {
        title: "Choose an MP3 file",
        accept_label: "Choose",
        filter_name: "MP3 audio",
        mime_types,
        patterns,
    };
    assert(r@.mime_types =~= seq!["audio/mpeg"@, "audio/mp3"@]);
    assert(r@.patterns =~= seq!["*.mp3"@]);
    r
}

/// An error dialog shows its title and its text as they are, and can only be
/// closed.
pub proof fn law_error_dialog_shows_its_texts(title: Seq<char>, body: Seq<char>)
    ensures
        ({
            let dialog = error_dialog(title, body);
            &&& dialog.heading == title
            &&& dialog.body == body
            &&& dialog.responses.len() == 1
            &&& dialog.responses[0].id == dialog.default_response
            &&& dialog.responses[0].id == dialog.close_response
            &&& dialog.responses[0].label == "Close"@
        }),
{
}

/// The dialog about a missing file names its path, unless that is blank. It has
/// one response that asks to remove the entry, which is drawn as destructive and
/// is never chosen by the return key or by closing.
pub proof fn law_missing_file_dialog_names_the_path(file_path: Seq<char>)
    ensures
        ({
            let dialog = missing_file_dialog(file_path);
            let body = dialog.body;
            &&& !blank(file_path) ==> {
                &&& body.len() >= file_path.len()
                &&& body.skip(body.len() - file_path.len()) == file_path
                &&& body.take(body.len() - file_path.len())
                    == "The audio file could not be found.\n\n"@
            }
            &&& blank(file_path) ==> body == "The audio file could not be found."@
            &&& dialog.heading == "Audio file could not be found."@
            &&& dialog.responses.len() == 2
            &&& !asks_to_remove(dialog.responses[0].id)
            &&& asks_to_remove(dialog.responses[1].id)
            &&& dialog.responses[0].appearance is Suggested
            &&& dialog.responses[1].appearance is Destructive
            &&& dialog.default_response == dialog.responses[0].id
            &&& dialog.close_response == dialog.responses[0].id
        }),
{
    reveal_strlit("cancel");
    reveal_strlit("remove");
    assert("cancel"@[0] != "remove"@[0]);
    let body = missing_file_dialog(file_path).body;
    if !blank(file_path) {
        assert(body.skip(body.len() - file_path.len()) =~= file_path);
        assert(body.take(body.len() - file_path.len())
            =~= "The audio file could not be found.\n\n"@);
    }
}

} // verus!
