//! What a finished GUI frame asks the toolkit to do.
//!
//! After each run of the GUI, its platform output may carry text that a copy
//! or cut command placed on the clipboard, and a URL that was clicked. This
//! module turns that output into the commands the toolkit shell performs.

use vstd::prelude::*;

verus! {

/// One action the toolkit shell performs after a GUI frame.
#[derive(Debug, PartialEq)]
pub enum OutputCommand {
    /// Put this text on the toolkit's clipboard.
    SetClipboard { text: String },
    /// Open this URL with the system handler.
    OpenUrl { url: String },
}

/// The commands a frame's platform output asks for: set the clipboard when
/// the GUI copied a non-empty text, then open the URL when one was clicked —
/// each exactly when present, in that order.
pub fn platform_output_commands(copied_text: String, open_url: Option<String>) -> (cmds: Vec<
    OutputCommand,
>)
    ensures
        cmds@ == (if copied_text@.len() > 0 {
            seq![OutputCommand::SetClipboard { text: copied_text }]
        } else {
            Seq::empty()
        }) + (match open_url {
            Some(url) => seq![OutputCommand::OpenUrl { url }],
            None => Seq::empty(),
        }),
{
    let mut cmds: Vec<OutputCommand> = Vec::new();
    if copied_text.as_str().unicode_len() > 0 {
        cmds.push(OutputCommand::SetClipboard { text: copied_text });
    }
    if let Some(url) = open_url {
        cmds.push(OutputCommand::OpenUrl { url });
    }
    proof {
        assert(cmds@ =~= (if copied_text@.len() > 0 {
            seq![OutputCommand::SetClipboard { text: copied_text }]
        } else {
            Seq::<OutputCommand>::empty()
        }) + (if open_url is Some {
            seq![OutputCommand::OpenUrl { url: open_url->0 }]
        } else {
            Seq::<OutputCommand>::empty()
        }));
    }
    cmds
}

} // verus!
