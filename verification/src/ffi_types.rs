//! Small value types shared across the host boundary.
use vstd::prelude::*;
use crate::text::{chars_of, eq_range};

verus! {

/// Renderer backing a webview.
#[derive(Clone, Copy, PartialEq, Eq, Debug, Structural)]
pub enum WebviewRendererKind {
    Native,
    Cef,
}

impl WebviewRendererKind {
    /// Only the exact text `"cef"` selects CEF; anything else is native.
    pub fn parse(renderer: &str) -> (r: WebviewRendererKind)
        ensures
            r == (if renderer@ == "cef"@ {
                WebviewRendererKind::Cef
            } else {
                WebviewRendererKind::Native
            }),
    {
        let v = chars_of(renderer);
        let cef = chars_of("cef");
        proof {
            assert(v@.subrange(0, v@.len() as int) =~= v@);
        }
        if eq_range(v.as_slice(), 0, v.len(), cef.as_slice()) {
            WebviewRendererKind::Cef
        } else {
            WebviewRendererKind::Native
        }
    }
}

} // verus!
