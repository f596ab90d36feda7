//! The labels of the application's windows.
use vstd::prelude::*;
use vstd::string::*;

verus! {

#[derive(Debug, Clone, Copy, PartialEq, Eq)]
pub enum WindowLabel {
    Main,
    Overlay,
}

/// A text that names no window.
#[derive(Debug, Clone, PartialEq, Eq)]
pub struct UnknownLabel {
    pub label: String,
}

/// Whether two texts are equal, character by character.
pub fn same_text(a: &str, b: &str) -> (r: bool)
    ensures
        r == (a@ == b@),
{
    let n = a.unicode_len();
    if n != b.unicode_len() {
        return false;
    }
    let mut i: usize = 0;
    while i < n
        invariant
            n == a@.len(),
            n == b@.len(),
            i <= n,
            forall|j: int| 0 <= j < i ==> a@[j] == b@[j],
        decreases n - i,
    {
        if a.get_char(i) != b.get_char(i) {
            return false;
        }
        i = i + 1;
    }
    proof {
        assert(a@ =~= b@);
    }
    true
}

impl WindowLabel {
    pub open spec fn spec_label(self) -> Seq<char> {
        match self {
            WindowLabel::Main => "main"@,
            WindowLabel::Overlay => "overlay"@,
        }
    }

    pub fn as_str(&self) -> (r: &'static str)
        ensures
            r@ == self.spec_label(),
    {
        match self {
            WindowLabel::Main => "main",
            WindowLabel::Overlay => "overlay",
        }
    }

    pub fn to_string(&self) -> (r: String)
        ensures
            r@ == self.spec_label(),
    {
        self.as_str().to_string()
    }

    /// The window a label names.
    pub fn parse(s: &str) -> (r: Result<WindowLabel, UnknownLabel>)
        ensures
            r matches Ok(l) ==> l.spec_label() == s@,
            r is Err <==> (s@ != WindowLabel::Main.spec_label() && s@
                != WindowLabel::Overlay.spec_label()),
            r matches Err(e) ==> e.label@ == s@,
    {
        if same_text(s, "main") {
            Ok(WindowLabel::Main)
        } else if same_text(s, "overlay") {
            Ok(WindowLabel::Overlay)
        } else {
            Err(UnknownLabel { label: s.to_string() })
        }
    }
}

impl std::str::FromStr for WindowLabel {
    type Err = UnknownLabel;

    fn from_str(s: &str) -> Result<WindowLabel, UnknownLabel> {
        WindowLabel::parse(s)
    }
}

} // verus!
