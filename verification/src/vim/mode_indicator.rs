//! The text of the mode indicator.
//!
//! The indicator shows the keys typed so far, or else what the pending
//! operators amount to, followed by the mode: `2d -- NORMAL --`.
use vstd::prelude::*;
use crate::text::{concat, decimal_chars, join_strings, joined, push_all, push_decimal, strings_view};

verus! {

/// What the indicator needs to know of the editor's modal state.
pub struct VimState {
    /// The name of the current mode, as it is shown.
    pub mode: String,
    /// Whether the mode is entered for a single insertion only.
    pub temp_mode: bool,
    /// The register that a macro is being recorded into.
    pub recording_register: Option<char>,
    /// The count typed before the operator.
    pub pre_count: Option<usize>,
    /// The register selected for the next operator.
    pub selected_register: Option<char>,
    /// The status text of each pending operator, oldest first.
    pub operator_stack: Vec<String>,
    /// The count typed after the operator.
    pub post_count: Option<usize>,
}

/// The indicator's own state: the keys typed so far of a binding that is not
/// complete yet.
pub struct ModeIndicator {
    pending_keys: Option<String>,
}

/// The text of an optional count: its digits, or nothing.
pub open spec fn count_text(count: Option<usize>) -> Seq<char> {
    match count {
        Some(n) => decimal_chars(n as nat),
        None => Seq::empty(),
    }
}

/// The text that says which register is being recorded into.
pub open spec fn recording_text(register: Option<char>) -> Seq<char> {
    match register {
        Some(r) => "recording @"@.push(r) + " "@,
        None => Seq::empty(),
    }
}

/// The text that says which register is selected.
pub open spec fn register_text(register: Option<char>) -> Seq<char> {
    match register {
        Some(r) => "\""@.push(r),
        None => Seq::empty(),
    }
}

impl VimState {
    /// What the pending operators amount to: the recording notice, the first
    /// count, the selected register, the operators and the second count.
    pub open spec fn operators_description(self) -> Seq<char> {
        recording_text(self.recording_register) + count_text(self.pre_count) + register_text(
            self.selected_register,
        ) + concat(strings_view(self.operator_stack@)) + count_text(self.post_count)
    }

    /// The mode as it is shown: a temporary mode is marked as such.
    pub open spec fn mode_text(self) -> Seq<char> {
        if self.temp_mode {
            "(insert) "@ + self.mode@
        } else {
            self.mode@
        }
    }
}

/// The label for what is pending and the mode.
pub open spec fn label_text(pending: Seq<char>, mode: Seq<char>) -> Seq<char> {
    pending + " -- "@ + mode + " --"@
}

impl ModeIndicator {
    /// The keys typed so far, if a binding is pending.
    pub closed spec fn pending(&self) -> Option<Seq<char>> {
        match self.pending_keys {
            Some(k) => Some(k@),
            None => None,
        }
    }

    /// What the indicator shows for a modal state: the pending keys if there
    /// are any, else the description of the pending operators, and the mode.
    pub open spec fn spec_render(&self, vim: VimState) -> Seq<char> {
        label_text(
            match self.pending() {
                Some(k) => k,
                None => vim.operators_description(),
            },
            vim.mode_text(),
        )
    }

    /// An indicator with no keys pending.
    pub fn new() -> (r: ModeIndicator)
        ensures
            r.pending() is None,
    {
        ModeIndicator { pending_keys: None }
    }

    /// Takes note of the keys typed so far: their names with a space between
    /// each two, or nothing where no binding is pending.
    pub fn update_pending_keys(&mut self, keystrokes: Option<Vec<String>>)
        ensures
            final(self).pending() == match keystrokes {
                Some(keys) => Some(joined(strings_view(keys@), " "@)),
                None => None,
            },
    {
        self.pending_keys = match keystrokes {
            Some(keys) => Some(join_strings(&keys, " ")),
            None => None,
        };
    }

    /// Describes the pending operators of a modal state.
    pub fn current_operators_description(vim: &VimState) -> (r: String)
        ensures
            r@ == vim.operators_description(),
    {
        let mut out = String::new();
        match vim.recording_register {
            Some(register) => {
                out.append("recording @");
                out.push(register);
                out.append(" ");
            },
            None => {},
        }
        match vim.pre_count {
            Some(count) => {
                push_decimal(&mut out, count);
            },
            None => {},
        }
        match vim.selected_register {
            Some(register) => {
                out.append("\"");
                out.push(register);
            },
            None => {},
        }
        push_all(&mut out, &vim.operator_stack);
        match vim.post_count {
            Some(count) => {
                push_decimal(&mut out, count);
            },
            None => {},
        }
        out
    }

    /// The indicator's label, or `None` where there is no modal state to
    /// show and the indicator stays empty.
    pub fn render(&self, vim: Option<&VimState>) -> (r: Option<String>)
        ensures
            match vim {
                Some(v) => r matches Some(label) && label@ == self.spec_render(*v),
                None => r is None,
            },
    {
        let vim = match vim {
            Some(v) => v,
            None => {
                return None;
            },
        };
        let mut label = match &self.pending_keys {
            Some(keys) => keys.clone(),
            None => Self::current_operators_description(vim),
        };
        label.append(" -- ");
        if vim.temp_mode {
            label.append("(insert) ");
        }
        label.append(vim.mode.as_str());
        label.append(" --");
        Some(label)
    }
}

} // verus!
