//! File dialogs and message boxes.

use crate::handle::WindowHandle;
use crate::utf16::{decode_strict, decoded, lossy, to_wide, well_paired, wide};
use vstd::prelude::*;

verus! {

/// Do not change the working directory of the process.
pub const FOS_NOCHANGEDIR: u32 = 0x0008;

/// Offer only what has a path in the file system.
pub const FOS_FORCEFILESYSTEM: u32 = 0x0040;

/// Accept only paths whose folder exists.
pub const FOS_PATHMUSTEXIST: u32 = 0x0800;

/// Accept only files that exist.
pub const FOS_FILEMUSTEXIST: u32 = 0x1000;

#[derive(Clone, Copy, PartialEq, Eq, Structural, Debug)]
pub enum DialogKind {
    Open,
    Save,
}

/// A file dialog that is to be shown.
#[derive(PartialEq, Eq, Debug)]
pub struct DialogRequest {
    pub kind: DialogKind,
    pub flags: u32,
    /// The file name that the dialog proposes.
    pub file_name: Option<Vec<u16>>,
}

impl WindowHandle {
    /// Asks for a file to open. Without a node to report to there is nothing to ask.
    pub fn open_file_dialog<N>(&self, node: Option<N>) -> (request: Option<(N, DialogRequest)>)
        ensures
            match node {
                Some(n) => {
                    &&& request matches Some(r)
                    &&& r.0 == n
                    &&& r.1 == (DialogRequest {
                        kind: DialogKind::Open,
                        flags: 0x1848,
                        file_name: None,
                    })
                },
                None => request is None,
            },
    {
        assert(0x40u32 | 0x800 | 0x1000 | 0x8 == 0x1848) by (bit_vector);
        match node {
            Some(node) => Some(
                (
                    node,
                    DialogRequest {
                        kind: DialogKind::Open,
                        flags: FOS_FORCEFILESYSTEM | FOS_PATHMUSTEXIST | FOS_FILEMUSTEXIST
                            | FOS_NOCHANGEDIR,
                        file_name: None,
                    },
                ),
            ),
            None => None,
        }
    }

    /// Asks for a file to save to, with a file name to propose. Without a node to report to there is
    /// nothing to ask.
    pub fn save_file_dialog<N>(&self, node: Option<N>, initial_name: Option<&str>) -> (request: Option<
        (N, DialogRequest),
    >)
        ensures
            match node {
                Some(n) => {
                    &&& request matches Some(r)
                    &&& r.0 == n
                    &&& r.1.kind == DialogKind::Save
                    &&& r.1.flags == 0x0848
                    &&& match initial_name {
                        Some(name) => r.1.file_name matches Some(units) && units@ == wide(
                            name@,
                        ),
                        None => r.1.file_name is None,
                    }
                },
                None => request is None,
            },
    {
        assert(0x40u32 | 0x800 | 0x8 == 0x0848) by (bit_vector);
        match node {
            Some(node) => {
                let file_name: Option<Vec<u16>> = match initial_name {
                    Some(name) => Some(to_wide(name)),
                    None => None,
                };
                Some(
                    (
                        node,
                        DialogRequest {
                            kind: DialogKind::Save,
                            flags: FOS_FORCEFILESYSTEM | FOS_PATHMUSTEXIST | FOS_NOCHANGEDIR,
                            file_name,
                        },
                    ),
                )
            },
            None => None,
        }
    }
}

/// How far a file dialog came.
#[derive(PartialEq, Eq, Debug)]
pub enum DialogOutcome {
    /// It could not be created.
    NotCreated,
    /// It could not be shown, or the user cancelled it.
    NotShown,
    /// It has no result.
    NoResult,
    /// Its result has no path.
    NoName,
    /// The path of its result.
    Name(Vec<u16>),
}

/// What the node that asked is told.
#[derive(PartialEq, Eq, Debug)]
pub enum FileDialogResponse {
    Opened(Vec<String>),
    Saved(String),
    Cancelled,
}

/// The path that was chosen, if one was, and if it can be written as a text.
pub open spec fn chosen_path(outcome: DialogOutcome) -> Option<Seq<char>> {
    match outcome {
        DialogOutcome::Name(units) => if well_paired(decoded(units@)) {
            Some(lossy(decoded(units@)))
        } else {
            None
        },
        _ => None,
    }
}

/// Answers the node that asked: with the path that was chosen, or else that it was cancelled.
pub fn dialog_response(kind: DialogKind, outcome: &DialogOutcome) -> (response: FileDialogResponse)
    ensures
        match chosen_path(*outcome) {
            Some(path) => match kind {
                DialogKind::Open => response matches FileDialogResponse::Opened(paths)
                    && paths@.len() == 1 && paths@[0]@ == path,
                DialogKind::Save => response matches FileDialogResponse::Saved(saved) && saved@
                    == path,
            },
            None => response is Cancelled,
        },
{
    let path: Option<String> = match outcome {
        DialogOutcome::Name(units) => decode_strict(units.as_slice()),
        _ => None,
    };
    match path {
        Some(path) => match kind {
            DialogKind::Open => {
                let mut paths: Vec<String> = Vec::new();
                paths.push(path);
                FileDialogResponse::Opened(paths)
            },
            DialogKind::Save => FileDialogResponse::Saved(path),
        },
        None => FileDialogResponse::Cancelled,
    }
}

/// A path that was chosen is reported as it is: whatever text a dialog returns comes back to the
/// node that asked.
pub proof fn law_chosen_path_is_reported(path: Seq<char>, outcome: DialogOutcome)
    requires
        outcome matches DialogOutcome::Name(units) && units@ == crate::utf16::units_of(path),
    ensures
        chosen_path(outcome) == Some(path),
{
    crate::utf16::law_decode_inverts_encode(path);
}

/// A path is reported exactly where the dialog has one that can be written as a text; the text
/// then has the code units of the path.
pub proof fn law_reported_path(outcome: DialogOutcome)
    ensures
        chosen_path(outcome) matches Some(path) ==> (outcome matches DialogOutcome::Name(units)
            && units@ == crate::utf16::units_of(path)),
        chosen_path(outcome) is None ==> forall|path: Seq<char>|
            !(outcome matches DialogOutcome::Name(units) && units@
                == #[trigger] crate::utf16::units_of(path)),
{
    if let DialogOutcome::Name(units) = outcome {
        crate::utf16::law_encode_inverts_decode(units@);
        assert forall|path: Seq<char>| chosen_path(outcome) is None implies units@
            != #[trigger] crate::utf16::units_of(path) by {
            crate::utf16::law_decode_inverts_encode(path);
        }
    }
}

/// One button: OK.
pub const MB_OK: u32 = 0x00;

/// Three buttons: Yes, No and Cancel.
pub const MB_YESNOCANCEL: u32 = 0x03;

/// Two buttons: Yes and No.
pub const MB_YESNO: u32 = 0x04;

/// The sign of an error.
pub const MB_ICONERROR: u32 = 0x10;

/// A message box that is to be shown.
#[derive(PartialEq, Eq, Debug)]
pub struct MessageBox {
    pub text: Vec<u16>,
    pub caption: Vec<u16>,
    pub style: u32,
}

impl WindowHandle {
    /// Puts a question with `options` answers: as many buttons as it has answers, from one to three.
    pub fn alert(&self, title: &str, details: &str, options: usize) -> (message: MessageBox)
        ensures
            message.text@ == wide(details@),
            message.caption@ == wide(title@),
            message.style == (if options <= 1 {
                MB_OK
            } else if options == 2 {
                MB_YESNO
            } else {
                MB_YESNOCANCEL
            }),
    {
        let style: u32 = if options <= 1 {
            MB_OK
        } else if options == 2 {
            MB_YESNO
        } else {
            MB_YESNOCANCEL
        };
        MessageBox { text: to_wide(details), caption: to_wide(title), style }
    }
}

/// Tells of an error that the application cannot go on after.
pub fn fatal_error(title: &str, details: &str) -> (message: MessageBox)
    ensures
        message.text@ == wide(details@),
        message.caption@ == wide(title@),
        message.style == 0x10,
{
    assert(0u32 | 0x10 == 0x10) by (bit_vector);
    MessageBox { text: to_wide(details), caption: to_wide(title), style: MB_OK | MB_ICONERROR }
}

} // verus!
