use vstd::prelude::*;

verus! {

/// True when `needle` occurs in `hay` starting at character offset `i`.
pub open spec fn matches_at(hay: Seq<char>, needle: Seq<char>, i: int) -> bool {
    0 <= i && i + needle.len() <= hay.len() && hay.subrange(i, i + needle.len()) == needle
}

/// True when `needle` occurs anywhere in `hay` as a contiguous run.
pub open spec fn spec_str_contains(hay: Seq<char>, needle: Seq<char>) -> bool {
    exists|i: int| matches_at(hay, needle, i)
}

/// Whether `needle` occurs at offset `i` of `hay`.
fn matches_at_exec(hay: &str, needle: &str, i: usize) -> (r: bool)
    requires
        i + needle@.len() <= hay@.len(),
    ensures
        r == matches_at(hay@, needle@, i as int),
{
    let hay_len = hay.unicode_len();
    let needle_len = needle.unicode_len();
    let mut k: usize = 0;
    while k < needle_len
        invariant
            k <= needle_len,
            needle_len == needle@.len(),
            hay_len == hay@.len(),
            i + needle@.len() <= hay@.len(),
            forall|m: int| 0 <= m < k ==> hay@[i + m] == needle@[m],
        decreases needle_len - k,
    {
        if hay.get_char(i + k) != needle.get_char(k) {
            proof {
                assert(hay@.subrange(i as int, i + needle@.len())[k as int] == hay@[i + k]);
            }
            return false;
        }
        k = k + 1;
    }
    proof {
        assert(hay@.subrange(i as int, i + needle@.len()) =~= needle@);
    }
    true
}

/// Whether `needle` occurs anywhere in `hay`, scanning every character
/// offset in order.
pub fn str_contains(hay: &str, needle: &str) -> (r: bool)
    ensures
        r == spec_str_contains(hay@, needle@),
{
    let hay_len = hay.unicode_len();
    let needle_len = needle.unicode_len();
    if needle_len > hay_len {
        proof {
            assert forall|i: int| !matches_at(hay@, needle@, i) by {}
        }
        return false;
    }
    if needle_len == 0 {
        proof {
            assert(hay@.subrange(0, 0) =~= needle@);
            assert(matches_at(hay@, needle@, 0));
        }
        return true;
    }
    let mut i: usize = 0;
    while i <= hay_len - needle_len
        invariant
            0 < needle_len <= hay_len,
            hay_len == hay@.len(),
            needle_len == needle@.len(),
            i <= hay_len - needle_len + 1,
            forall|j: int| 0 <= j < i ==> !matches_at(hay@, needle@, j),
        decreases hay_len - needle_len + 1 - i,
    {
        if matches_at_exec(hay, needle, i) {
            return true;
        }
        i = i + 1;
    }
    proof {
        assert forall|j: int| !matches_at(hay@, needle@, j) by {
            if 0 <= j < i {
            } else if j >= i {
                assert(j + needle@.len() > hay@.len());
            }
        }
    }
    false
}

/// The macOS roles of a known editable kind: text field, text area, combo
/// box.
pub open spec fn spec_mac_editable_role(role: Seq<char>) -> bool {
    ||| spec_str_contains(role, "AXTextField"@)
    ||| spec_str_contains(role, "AXTextArea"@)
    ||| spec_str_contains(role, "AXComboBox"@)
}

/// Classifies a macOS accessibility role string as editable.  This strict
/// form guards the re-selection step after an injection.
pub fn mac_role_is_editable(role: &str) -> (r: bool)
    ensures
        r == spec_mac_editable_role(role@),
{
    str_contains(role, "AXTextField") || str_contains(role, "AXTextArea") || str_contains(
        role,
        "AXComboBox",
    )
}

/// The lenient macOS classification behind the editability query answered to
/// the shell: a window role also counts, since some applications draw their
/// own text controls inside a plain window.
pub open spec fn spec_mac_editable_role_lenient(role: Seq<char>) -> bool {
    spec_mac_editable_role(role) || spec_str_contains(role, "AXWindow"@)
}

/// Classifies a macOS accessibility role string as editable, leniently.
pub fn mac_role_is_editable_lenient(role: &str) -> (r: bool)
    ensures
        r == spec_mac_editable_role_lenient(role@),
{
    mac_role_is_editable(role) || str_contains(role, "AXWindow")
}

/// UI Automation control type id of an edit control.
pub const EDIT_CONTROL_TYPE_ID: i32 = 50004;

/// UI Automation control type id of a document control.
pub const DOCUMENT_CONTROL_TYPE_ID: i32 = 50030;

/// Legacy accessible role of editable text.
pub const ROLE_SYSTEM_TEXT: u32 = 42;

/// Legacy accessible role of a combo box.
pub const ROLE_SYSTEM_COMBOBOX: u32 = 46;

/// What the three Windows editability probes reported, in the order the
/// platform is asked; `None` where the probe itself failed.
#[derive(Debug, Clone, Copy, PartialEq, Eq, Structural)]
pub struct WindowsEditableProbe {
    pub control_type: Option<i32>,
    pub value_is_read_only: Option<bool>,
    pub legacy_role: Option<u32>,
}

/// A Windows element is editable when its control type is an edit or
/// document control, or its value pattern reports non-read-only, or its
/// legacy role is editable text or a combo box.
pub open spec fn spec_windows_editable(p: WindowsEditableProbe) -> bool {
    ||| p.control_type == Some(EDIT_CONTROL_TYPE_ID)
    ||| p.control_type == Some(DOCUMENT_CONTROL_TYPE_ID)
    ||| p.value_is_read_only == Some(false)
    ||| p.legacy_role == Some(ROLE_SYSTEM_TEXT)
    ||| p.legacy_role == Some(ROLE_SYSTEM_COMBOBOX)
}

/// Classifies the focused element on Windows from the probe results.
pub fn windows_is_editable(p: &WindowsEditableProbe) -> (r: bool)
    ensures
        r == spec_windows_editable(*p),
{
    match p.control_type {
        Some(ct) => {
            if ct == EDIT_CONTROL_TYPE_ID || ct == DOCUMENT_CONTROL_TYPE_ID {
                return true;
            }
        },
        None => {},
    }
    match p.value_is_read_only {
        Some(read_only) => {
            if !read_only {
                return true;
            }
        },
        None => {},
    }
    match p.legacy_role {
        Some(role) => role == ROLE_SYSTEM_TEXT || role == ROLE_SYSTEM_COMBOBOX,
        None => false,
    }
}

/// The classification handed onward when the probe could not decide.  On
/// failure the target is assumed editable: under-selecting after a paste (a
/// missing highlight) is judged better than a wrong one on a read-only
/// target.  One consistent choice, applied everywhere.
pub fn editable_or_default(classification: Option<bool>) -> (r: bool)
    ensures
        r == (match classification {
            Some(b) => b,
            None => true,
        }),
{
    match classification {
        Some(b) => b,
        None => true,
    }
}

} // verus!
