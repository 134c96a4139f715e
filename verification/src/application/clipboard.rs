use crate::text::str_concat;
use crate::text::join;
use crate::ui::toast::toast;
use crate::ui::toast::with_toast;
use crate::ui::toast::ToastType;
use crate::ui::toast::ToastView;
use crate::ui::toast::UI;
use vstd::prelude::*;

verus! {

/// A header with its value, as it is copied.
pub open spec fn labelled(header: Seq<char>, value: Seq<char>) -> Seq<char> {
    header + ": "@ + value
}

/// The first `n` headers, each with its value.
pub open spec fn labelled_values(headers: Seq<Seq<char>>, values: Seq<Seq<char>>, n: int) -> Seq<
    Seq<char>,
> {
    Seq::new(
        if n >= 0 {
            n as nat
        } else {
            0
        },
        |i: int| labelled(headers[i], values[i]),
    )
}

/// A row as it is copied: each header with its value, as far as both go,
/// separated by commas.
pub open spec fn row_text(headers: Seq<Seq<char>>, values: Seq<Seq<char>>) -> Seq<char> {
    let n = if headers.len() <= values.len() {
        headers.len()
    } else {
        values.len()
    };
    join(labelled_values(headers, values, n as int), ", "@)
}

/// What the user is told after a text was copied, or could not be.
pub open spec fn copy_report(text: Seq<char>, outcome: Result<(), String>) -> ToastView {
    match outcome {
        Ok(_) => toast("Yanked: "@ + text, ToastType::Success),
        Err(e) => toast("Failed to copy to clipboard: "@ + e@, ToastType::Error),
    }
}

/// What the session copies to the clipboard, and what it reports of that.
pub struct ClipboardManager;

impl ClipboardManager {
    /// A manager of what is copied.
    pub fn new() -> Self {
        Self
    }

    /// Reports how the copying of `text` went.
    pub fn copy_text(&self, text: &str, outcome: Result<(), String>, ui: &mut UI)
        ensures
            final(ui).toasts() == with_toast(old(ui).toasts(), copy_report(text@, outcome)),
            final(ui).last_mouse_position == old(ui).last_mouse_position,
            final(ui).spinner_frame == old(ui).spinner_frame,
    {
        match outcome {
            Ok(_) => {
                ui.add_toast(str_concat("Yanked: ", text), ToastType::Success);
            },
            Err(e) => {
                ui.add_toast(str_concat("Failed to copy to clipboard: ", e.as_str()), ToastType::Error);
            },
        }
    }

    /// The text that copying a row puts on the clipboard.
    pub fn copy_row(&self, headers: &Vec<String>, values: &Vec<String>) -> (r: String)
        ensures
            r@ == row_text(headers.deep_view(), values.deep_view()),
    {
        let n = if headers.len() <= values.len() {
            headers.len()
        } else {
            values.len()
        };
        let ghost hs = headers.deep_view();
        let ghost vs = values.deep_view();
        let mut r = String::new();
        let mut i: usize = 0;
        assert(labelled_values(hs, vs, 0) =~= Seq::empty());
        while i < n
            invariant
                0 <= i <= n,
                n <= headers.len(),
                n <= values.len(),
                hs == headers.deep_view(),
                vs == values.deep_view(),
                r@ == join(labelled_values(hs, vs, i as int), ", "@),
            decreases n - i,
        {
            let with_colon = str_concat(headers[i].as_str(), ": ");
            let pair = str_concat(with_colon.as_str(), values[i].as_str());
            proof {
                let parts = labelled_values(hs, vs, i + 1);
                assert(parts.drop_last() =~= labelled_values(hs, vs, i as int));
                assert(hs[i as int] == headers@[i as int]@);
                assert(vs[i as int] == values@[i as int]@);
                assert(parts.last() == pair@);
            }
            if i > 0 {
                r = str_concat(r.as_str(), ", ");
            }
            r = str_concat(r.as_str(), pair.as_str());
            proof {
                if i == 0 {
                    assert(r@ =~= pair@);
                }
            }
            i += 1;
        }
        r
    }

    /// The text that copying a cell puts on the clipboard.
    pub fn copy_cell(&self, value: &str) -> (r: String)
        ensures
            r@ == value@,
    {
        value.to_owned()
    }
}

} // verus!
