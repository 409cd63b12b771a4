//! Text as the host's C interface wants it.

use vstd::prelude::*;
use crate::text::join_text;

verus! {

/// `text`, ended by a NUL character unless it ends in one already.
pub open spec fn nul_terminated(text: Seq<char>) -> Seq<char> {
    if text.len() > 0 && text.last() == '\0' {
        text
    } else {
        text.push('\0')
    }
}

/// Text that can be handed to C.
pub trait ToNullTerminatedString {
    /// The text that the value holds.
    spec fn text(&self) -> Seq<char>;

    /// The text, ended by a NUL character.
    fn to_nul_terminated(&self) -> (out: String)
        ensures
            out@ == nul_terminated(self.text()),
    ;
}

impl ToNullTerminatedString for str {
    open spec fn text(&self) -> Seq<char> {
        self@
    }

    fn to_nul_terminated(&self) -> (out: String) {
        let chars = crate::text::chars_of(self);
        if chars.len() > 0 && chars[chars.len() - 1] == '\0' {
            self.to_owned()
        } else {
            let out = join_text(self, "\0");
            proof {
                reveal_strlit("\0");
                assert("\0"@ =~= seq!['\0']);
                assert(self@ + seq!['\0'] =~= self@.push('\0'));
            }
            out
        }
    }
}

impl ToNullTerminatedString for String {
    open spec fn text(&self) -> Seq<char> {
        self@
    }

    fn to_nul_terminated(&self) -> (out: String) {
        self.as_str().to_nul_terminated()
    }
}

} // verus!
