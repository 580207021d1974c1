//! What a dialog is shown with, and what its outcome means.
//!
//! The dialogs themselves belong to the platform. The functions here decide
//! which buttons a dialog gets from the labels that the host passed, which
//! picker a file dialog uses, and whether the button that the user chose
//! counts as a yes.

use vstd::prelude::*;
use vstd::utf8::{decode_utf8, valid_utf8};
use crate::string::{c_str_to_string, c_string_bytes, string_to_c_string};
use crate::types::WryMessageDialogButtons;

verus! {

/// The buttons of a message dialog, with their labels where the host chose
/// them.
#[derive(Clone, Debug, PartialEq, Eq)]
pub enum MessageButtons {
    OkOnly,
    OkCancel,
    YesNo,
    YesNoCancel,
    OkCustom(String),
    OkCancelCustom(String, String),
    YesNoCancelCustom(String, String, String),
}

/// The button that closed a message dialog.
#[derive(Clone, Debug, PartialEq, Eq)]
pub enum MessageDialogResult {
    Yes,
    No,
    Confirmed,
    Cancel,
    /// A button with a label of the host's, by its label.
    Custom(String),
}

/// The characters of a text that may be absent.
pub open spec fn text_of(text: Option<String>) -> Option<Seq<char>> {
    match text {
        Some(present) => Some(present@),
        None => None,
    }
}

/// Whether the buttons are the ones that the host asked for. Custom labels
/// are used only where the host gave every label that the set of buttons
/// needs; a yes/no dialog never has custom labels.
pub open spec fn buttons_match(
    chosen: MessageButtons,
    buttons: WryMessageDialogButtons,
    ok_label: Option<Seq<char>>,
    cancel_label: Option<Seq<char>>,
    yes_label: Option<Seq<char>>,
    no_label: Option<Seq<char>>,
) -> bool {
    match buttons {
        WryMessageDialogButtons::OkOnly => match ok_label {
            Some(ok) => chosen matches MessageButtons::OkCustom(label) && label@ == ok,
            None => chosen is OkOnly,
        },
        WryMessageDialogButtons::OkCancel => if ok_label is Some && cancel_label is Some {
            chosen matches MessageButtons::OkCancelCustom(ok, cancel) && ok@ == ok_label->0
                && cancel@ == cancel_label->0
        } else {
            chosen is OkCancel
        },
        WryMessageDialogButtons::YesNo => chosen is YesNo,
        WryMessageDialogButtons::YesNoCancel => if yes_label is Some && no_label is Some
            && cancel_label is Some {
            chosen matches MessageButtons::YesNoCancelCustom(yes, no, cancel) && yes@
                == yes_label->0 && no@ == no_label->0 && cancel@ == cancel_label->0
        } else {
            chosen is YesNoCancel
        },
    }
}

/// Chooses the buttons of a message dialog.
pub fn message_dialog_buttons(
    buttons: WryMessageDialogButtons,
    ok_label: Option<String>,
    cancel_label: Option<String>,
    yes_label: Option<String>,
    no_label: Option<String>,
) -> (chosen: MessageButtons)
    ensures
        buttons_match(
            chosen,
            buttons,
            text_of(ok_label),
            text_of(cancel_label),
            text_of(yes_label),
            text_of(no_label),
        ),
{
    match buttons {
        WryMessageDialogButtons::OkOnly => match ok_label {
            Some(ok) => MessageButtons::OkCustom(ok),
            None => MessageButtons::OkOnly,
        },
        WryMessageDialogButtons::OkCancel => match (ok_label, cancel_label) {
            (Some(ok), Some(cancel)) => MessageButtons::OkCancelCustom(ok, cancel),
            _ => MessageButtons::OkCancel,
        },
        WryMessageDialogButtons::YesNo => MessageButtons::YesNo,
        WryMessageDialogButtons::YesNoCancel => match (yes_label, no_label, cancel_label) {
            (Some(yes), Some(no), Some(cancel)) => MessageButtons::YesNoCancelCustom(
                yes,
                no,
                cancel,
            ),
            _ => MessageButtons::YesNoCancel,
        },
    }
}

/// Whether a message dialog was answered with a yes: its OK or Yes button.
/// A button with a custom label does not count.
pub fn message_dialog_accepted(result: &MessageDialogResult) -> (accepted: bool)
    ensures
        accepted == (*result is Confirmed || *result is Yes),
{
    match result {
        MessageDialogResult::Confirmed => true,
        MessageDialogResult::Yes => true,
        _ => false,
    }
}

/// Chooses the buttons of a dialog with one button that confirms and one
/// that declines: the host's labels where it gave both, and the standard
/// pair otherwise. A confirm dialog's standard pair is OK and Cancel, an ask
/// dialog's is Yes and No.
pub fn choice_dialog_buttons(
    positive_label: Option<String>,
    negative_label: Option<String>,
    standard: MessageButtons,
) -> (chosen: MessageButtons)
    ensures
        if positive_label is Some && negative_label is Some {
            chosen matches MessageButtons::OkCancelCustom(positive, negative) && positive@
                == positive_label->0@ && negative@ == negative_label->0@
        } else {
            chosen == standard
        },
{
    match (positive_label, negative_label) {
        (Some(positive), Some(negative)) => MessageButtons::OkCancelCustom(positive, negative),
        _ => standard,
    }
}

/// Whether the button that closed a confirm or ask dialog counts as a yes:
/// the OK button, the Yes button, and a custom button whose label is the
/// label that the host gave for the confirming button.
pub open spec fn choice_accepted(
    result: MessageDialogResult,
    positive_label: Option<Seq<char>>,
) -> bool {
    match result {
        MessageDialogResult::Confirmed => true,
        MessageDialogResult::Yes => true,
        MessageDialogResult::Custom(choice) => positive_label == Some(choice@),
        _ => false,
    }
}

/// Decides whether a confirm or ask dialog was answered with a yes.
pub fn choice_dialog_accepted(result: &MessageDialogResult, positive_label: &Option<String>) -> (accepted:
    bool)
    ensures
        accepted == choice_accepted(*result, text_of(*positive_label)),
{
    match result {
        MessageDialogResult::Confirmed => true,
        MessageDialogResult::Yes => true,
        MessageDialogResult::Custom(choice) => match positive_label {
            Some(expected) => *choice == *expected,
            None => false,
        },
        _ => false,
    }
}

/// Which picker an open dialog uses.
#[derive(Clone, Copy, Debug, PartialEq, Eq, Structural)]
pub enum OpenMode {
    PickFolders,
    PickFolder,
    PickFiles,
    PickFile,
}

/// Chooses the picker of an open dialog.
pub fn open_dialog_mode(allow_directories: bool, allow_multiple: bool) -> (mode: OpenMode)
    ensures
        mode == (if allow_directories {
            if allow_multiple {
                OpenMode::PickFolders
            } else {
                OpenMode::PickFolder
            }
        } else if allow_multiple {
            OpenMode::PickFiles
        } else {
            OpenMode::PickFile
        }),
{
    if allow_directories {
        if allow_multiple {
            OpenMode::PickFolders
        } else {
            OpenMode::PickFolder
        }
    } else if allow_multiple {
        OpenMode::PickFiles
    } else {
        OpenMode::PickFile
    }
}

/// Whether an open dialog applies the host's filters: only where there are
/// any, and never when it picks folders.
pub fn open_dialog_filters_apply(filter_count: usize, filters_given: bool, allow_directories: bool) -> (apply:
    bool)
    ensures
        apply == (filter_count > 0 && filters_given && !allow_directories),
{
    filter_count > 0 && filters_given && !allow_directories
}

/// What a prompt is shown with.
#[derive(Clone, Debug, PartialEq, Eq)]
pub struct PromptPlan {
    pub title: String,
    pub message: String,
    pub default_text: String,
}

/// The title of a prompt: the host's, or "Prompt" where the host gave none
/// or an empty one.
pub open spec fn prompt_title(title: Option<Seq<char>>) -> Seq<char> {
    if title is Some && title->0.len() > 0 {
        title->0
    } else {
        "Prompt"@
    }
}

/// The text that a prompt starts with: the default value where there is
/// one, else the placeholder, else nothing.
pub open spec fn prompt_default_text(
    default_value: Option<Seq<char>>,
    placeholder: Option<Seq<char>>,
) -> Seq<char> {
    match default_value {
        Some(value) => value,
        None => match placeholder {
            Some(value) => value,
            None => Seq::empty(),
        },
    }
}

/// Decides what a prompt is shown with. A prompt without a message is not
/// shown at all.
pub fn prompt_dialog_plan(
    title: Option<String>,
    message: Option<String>,
    placeholder: Option<String>,
    default_value: Option<String>,
) -> (plan: Option<PromptPlan>)
    ensures
        plan is Some <==> message is Some && message->0@.len() > 0,
        plan matches Some(shown) ==> shown.title@ == prompt_title(text_of(title)) && shown.message@
            == message->0@ && shown.default_text@ == prompt_default_text(
            text_of(default_value),
            text_of(placeholder),
        ),
{
    let message = match message {
        Some(text) => text,
        None => {
            return None;
        },
    };
    if message.as_str().is_empty() {
        return None;
    }
    let title = match title {
        Some(text) => if text.as_str().is_empty() {
            "Prompt".to_owned()
        } else {
            text
        },
        None => "Prompt".to_owned(),
    };
    let default_text = match default_value {
        Some(value) => value,
        None => match placeholder {
            Some(value) => value,
            None => String::new(),
        },
    };
    Some(PromptPlan { title, message, default_text })
}

/// The outcome of a prompt as the host receives it: the text as a C string,
/// and whether there is one.
#[derive(Clone, Debug, PartialEq, Eq)]
pub struct WryPromptDialogResult {
    pub value: Option<Vec<u8>>,
    pub accepted: bool,
}

/// Turns what the user typed into the outcome for the host. A prompt that
/// was dismissed, or whose text holds a zero character and cannot travel as
/// a C string, has no value and was not accepted.
pub fn prompt_result_from_string(value: Option<String>) -> (result: WryPromptDialogResult)
    ensures
        result.accepted == (value is Some && !value->0@.contains('\0')),
        result.accepted == result.value is Some,
        result.value matches Some(written) ==> written@ == c_string_bytes(value->0@),
{
    match value {
        Some(text) => match string_to_c_string(text.as_str()) {
            Some(written) => WryPromptDialogResult { value: Some(written), accepted: true },
            None => WryPromptDialogResult { value: None, accepted: false },
        },
        None => WryPromptDialogResult { value: None, accepted: false },
    }
}

/// The C strings of the paths that can travel as C strings, in the order of
/// the paths.
pub open spec fn travelling_paths(paths: Seq<String>) -> Seq<Seq<u8>>
    decreases paths.len(),
{
    if paths.len() == 0 {
        seq![]
    } else {
        let earlier = travelling_paths(paths.drop_last());
        if paths.last()@.contains('\0') {
            earlier
        } else {
            earlier.push(c_string_bytes(paths.last()@))
        }
    }
}

/// The paths that a file dialog returned, as the host receives them.
#[derive(Clone, Debug, PartialEq, Eq)]
pub struct WryDialogSelection {
    pub paths: Vec<Vec<u8>>,
}

/// Turns the paths that the user picked into C strings for the host. A path
/// that holds a zero character is left out.
pub fn dialog_selection_from_paths(paths: Vec<String>) -> (selection: WryDialogSelection)
    ensures
        selection.paths@.map_values(|path: Vec<u8>| path@) == travelling_paths(paths@),
{
    let mut written: Vec<Vec<u8>> = Vec::new();
    let mut index: usize = 0;
    while index < paths.len()
        invariant
            index <= paths.len(),
            written@.map_values(|path: Vec<u8>| path@) == travelling_paths(
                paths@.take(index as int),
            ),
        decreases paths.len() - index,
    {
        let ghost before = written@.map_values(|path: Vec<u8>| path@);
        proof {
            assert(paths@.take(index + 1).drop_last() =~= paths@.take(index as int));
            assert(paths@.take(index + 1).last() == paths@[index as int]);
        }
        if let Some(path) = string_to_c_string(paths[index].as_str()) {
            written.push(path);
            assert(written@.map_values(|path: Vec<u8>| path@) =~= before.push(path@));
        }
        index += 1;
    }
    assert(paths@.take(index as int) =~= paths@);
    WryDialogSelection { paths: written }
}

/// A file filter as the host passed it: a label and a list of extensions,
/// each the bytes of a C string, or nothing where the pointer was null.
#[derive(Clone, Debug, PartialEq, Eq)]
pub struct WryDialogFilter {
    pub label: Option<Vec<u8>>,
    pub extensions: Option<Vec<Option<Vec<u8>>>>,
}

/// A file filter of a dialog.
#[derive(Clone, Debug, PartialEq, Eq)]
pub struct FileFilter {
    pub label: String,
    pub extensions: Vec<String>,
}

/// What a file filter holds.
pub struct FileFilterView {
    pub label: Seq<char>,
    pub extensions: Seq<Seq<char>>,
}

impl View for FileFilter {
    type V = FileFilterView;

    open spec fn view(&self) -> FileFilterView {
        FileFilterView {
            label: self.label@,
            extensions: self.extensions@.map_values(|extension: String| extension@),
        }
    }
}

/// The extensions of a filter: those that the host gave as texts, in their
/// order.
pub open spec fn filter_extensions(extensions: Seq<Option<Vec<u8>>>) -> Seq<Seq<char>>
    decreases extensions.len(),
{
    if extensions.len() == 0 {
        seq![]
    } else {
        let earlier = filter_extensions(extensions.drop_last());
        match extensions.last() {
            Some(bytes) => if valid_utf8(bytes@) {
                earlier.push(decode_utf8(bytes@))
            } else {
                earlier
            },
            None => earlier,
        }
    }
}

/// The filter of a dialog that a filter of the host gives, if its label is
/// a text. A filter without a list of extensions lets every file through.
pub open spec fn file_filter(filter: WryDialogFilter) -> Option<FileFilterView> {
    if filter.label is Some && valid_utf8(filter.label->0@) {
        Some(
            FileFilterView {
                label: decode_utf8(filter.label->0@),
                extensions: match filter.extensions {
                    Some(extensions) => filter_extensions(extensions@),
                    None => seq![],
                },
            },
        )
    } else {
        None
    }
}

/// The filters of a dialog: one for each of the host's filters that has a
/// label, in their order.
pub open spec fn file_filters(filters: Seq<WryDialogFilter>) -> Seq<FileFilterView>
    decreases filters.len(),
{
    if filters.len() == 0 {
        seq![]
    } else {
        let earlier = file_filters(filters.drop_last());
        match file_filter(filters.last()) {
            Some(filter) => earlier.push(filter),
            None => earlier,
        }
    }
}

fn bytes_of(bytes: &Option<Vec<u8>>) -> (slice: Option<&[u8]>)
    ensures
        match slice {
            Some(given) => bytes is Some && given@ == bytes->0@,
            None => bytes is None,
        },
{
    match bytes {
        Some(given) => Some(given.as_slice()),
        None => None,
    }
}

fn extensions_of(extensions: &Vec<Option<Vec<u8>>>) -> (texts: Vec<String>)
    ensures
        texts@.map_values(|extension: String| extension@) == filter_extensions(extensions@),
{
    let mut texts: Vec<String> = Vec::new();
    let mut index: usize = 0;
    while index < extensions.len()
        invariant
            index <= extensions.len(),
            texts@.map_values(|extension: String| extension@) == filter_extensions(
                extensions@.take(index as int),
            ),
        decreases extensions.len() - index,
    {
        let ghost before = texts@.map_values(|extension: String| extension@);
        proof {
            assert(extensions@.take(index + 1).drop_last() =~= extensions@.take(index as int));
            assert(extensions@.take(index + 1).last() == extensions@[index as int]);
        }
        if let Some(text) = c_str_to_string(bytes_of(&extensions[index])) {
            texts.push(text);
            assert(texts@.map_values(|extension: String| extension@) =~= before.push(text@));
        }
        index += 1;
    }
    assert(extensions@.take(index as int) =~= extensions@);
    texts
}

/// Picks the filters of a file dialog out of what the host passed. A filter
/// whose label is null or not UTF-8 is passed over, and so is an extension
/// that is null or not UTF-8.
pub fn dialog_apply_filters(filters: &Vec<WryDialogFilter>) -> (applied: Vec<FileFilter>)
    ensures
        applied@.map_values(|filter: FileFilter| filter@) == file_filters(filters@),
{
    let mut applied: Vec<FileFilter> = Vec::new();
    let mut index: usize = 0;
    while index < filters.len()
        invariant
            index <= filters.len(),
            applied@.map_values(|filter: FileFilter| filter@) == file_filters(
                filters@.take(index as int),
            ),
        decreases filters.len() - index,
    {
        let ghost before = applied@.map_values(|filter: FileFilter| filter@);
        proof {
            assert(filters@.take(index + 1).drop_last() =~= filters@.take(index as int));
            assert(filters@.take(index + 1).last() == filters@[index as int]);
        }
        if let Some(label) = c_str_to_string(bytes_of(&filters[index].label)) {
            let extensions = match &filters[index].extensions {
                Some(given) => extensions_of(given),
                None => Vec::new(),
            };
            let filter = FileFilter { label, extensions };
            assert(filter@.extensions =~= match filters@[index as int].extensions {
                Some(given) => filter_extensions(given@),
                None => seq![],
            });
            applied.push(filter);
            assert(applied@.map_values(|filter: FileFilter| filter@) =~= before.push(filter@));
        }
        index += 1;
    }
    assert(filters@.take(index as int) =~= filters@);
    applied
}

} // verus!
