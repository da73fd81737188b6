//! The folder that the user picked in a dialog.

use vstd::prelude::*;

verus! {

/// The first of the folders that were picked, if the dialog was not dismissed and at least
/// one was picked. It is the folder that the caller is then given access to.
pub fn select_folder(picked: Option<&Vec<String>>) -> (folder: Option<String>)
    ensures
        match folder {
            Some(path) => picked is Some && picked->0.len() > 0 && path == picked->0[0],
            None => picked is None || picked->0.len() == 0,
        },
{
    match picked {
        Some(folders) => {
            if folders.len() > 0 {
                Some(folders[0].clone())
            } else {
                None
            }
        },
        None => None,
    }
}

/// The message for a dialog whose answer never came.
pub fn dialog_failure(reason: &str) -> (message: String)
    ensures
        message@ == "Failed to receive result: "@ + reason@,
{
    let mut message = String::from_str("Failed to receive result: ");
    message.append(reason);
    message
}

} // verus!
