//! Window labels: automatically numbered primary windows and named
//! secondary windows.

use vstd::prelude::*;

verus! {

/// The family a label belongs to.
#[derive(Clone, Copy, Debug, PartialEq, Eq, Structural)]
pub enum LabelKind {
    Primary,
    Secondary,
}

/// Mathematical form of a window label.
pub enum LabelView {
    Primary(u64),
    Secondary(Seq<char>),
}

/// Identity of a window: `Primary(n)` renders as `main_<n>`, `Secondary(name)`
/// as `other_<name>`.
#[derive(Debug)]
pub enum WindowLabel {
    Primary(u64),
    Secondary(String),
}

impl View for WindowLabel {
    type V = LabelView;

    open spec fn view(&self) -> LabelView {
        match self {
            WindowLabel::Primary(n) => LabelView::Primary(*n),
            WindowLabel::Secondary(s) => LabelView::Secondary(s@),
        }
    }
}

/// The label of the first primary window, the "home" window.
pub open spec fn first_primary() -> LabelView {
    LabelView::Primary(0)
}

pub open spec fn kind_of(l: LabelView) -> LabelKind {
    match l {
        LabelView::Primary(_) => LabelKind::Primary,
        LabelView::Secondary(_) => LabelKind::Secondary,
    }
}

impl WindowLabel {
    pub fn kind(&self) -> (r: LabelKind)
        ensures
            r == kind_of(self@),
    {
        match self {
            WindowLabel::Primary(_) => LabelKind::Primary,
            WindowLabel::Secondary(_) => LabelKind::Secondary,
        }
    }

    pub fn is_secondary(&self) -> (r: bool)
        ensures
            r == (kind_of(self@) == LabelKind::Secondary),
    {
        match self {
            WindowLabel::Primary(_) => false,
            WindowLabel::Secondary(_) => true,
        }
    }

    pub fn is_first_primary(&self) -> (r: bool)
        ensures
            r == (self@ == first_primary()),
    {
        match self {
            WindowLabel::Primary(n) => *n == 0,
            WindowLabel::Secondary(_) => false,
        }
    }

    pub fn same(&self, other: &WindowLabel) -> (r: bool)
        ensures
            r == (self@ == other@),
    {
        match (self, other) {
            (WindowLabel::Primary(a), WindowLabel::Primary(b)) => *a == *b,
            (WindowLabel::Secondary(a), WindowLabel::Secondary(b)) => a.eq(b),
            _ => false,
        }
    }
}

impl Clone for WindowLabel {
    fn clone(&self) -> (r: Self)
        ensures
            r@ == self@,
    {
        match self {
            WindowLabel::Primary(n) => WindowLabel::Primary(*n),
            WindowLabel::Secondary(s) => WindowLabel::Secondary(s.clone()),
        }
    }
}

impl PartialEq for WindowLabel {
    fn eq(&self, other: &WindowLabel) -> (r: bool) {
        self.same(other)
    }
}

impl vstd::std_specs::cmp::PartialEqSpecImpl for WindowLabel {
    open spec fn obeys_eq_spec() -> bool {
        true
    }

    open spec fn eq_spec(&self, other: &WindowLabel) -> bool {
        self@ == other@
    }
}

/// Whether two texts are equal, character by character.
pub fn same_text(a: &str, b: &str) -> (r: bool)
    ensures
        r == (a@ == b@),
{
    let n = a.unicode_len();
    if n != b.unicode_len() {
        return false;
    }
    let mut i: usize = 0;
    while i < n
        invariant
            n == a@.len(),
            n == b@.len(),
            i <= n,
            forall|j: int| 0 <= j < i ==> a@[j] == b@[j],
        decreases n - i,
    {
        if a.get_char(i) != b.get_char(i) {
            return false;
        }
        i = i + 1;
    }
    assert(a@ =~= b@);
    true
}

/// Prefix of every primary label's text.
pub const MAIN_WINDOW_PREFIX: &'static str = "main_";

/// Prefix of every secondary label's text.
pub const OTHER_WINDOW_PREFIX: &'static str = "other_";

pub open spec fn digit_text(d: nat) -> Seq<char> {
    if d == 0 {
        "0"@
    } else if d == 1 {
        "1"@
    } else if d == 2 {
        "2"@
    } else if d == 3 {
        "3"@
    } else if d == 4 {
        "4"@
    } else if d == 5 {
        "5"@
    } else if d == 6 {
        "6"@
    } else if d == 7 {
        "7"@
    } else if d == 8 {
        "8"@
    } else {
        "9"@
    }
}

/// Decimal digits of `n`, most significant first, without leading zeros.
pub open spec fn decimal(n: nat) -> Seq<char>
    decreases n,
{
    if n < 10 {
        digit_text(n)
    } else {
        decimal(n / 10) + digit_text(n % 10)
    }
}

/// The text a label is known by to the windowing system.
pub open spec fn label_text(l: LabelView) -> Seq<char> {
    match l {
        LabelView::Primary(n) => MAIN_WINDOW_PREFIX@ + decimal(n as nat),
        LabelView::Secondary(name) => OTHER_WINDOW_PREFIX@ + name,
    }
}

fn digit_str(d: u64) -> (r: &'static str)
    requires
        d < 10,
    ensures
        r@ == digit_text(d as nat),
{
    if d == 0 {
        "0"
    } else if d == 1 {
        "1"
    } else if d == 2 {
        "2"
    } else if d == 3 {
        "3"
    } else if d == 4 {
        "4"
    } else if d == 5 {
        "5"
    } else if d == 6 {
        "6"
    } else if d == 7 {
        "7"
    } else if d == 8 {
        "8"
    } else {
        "9"
    }
}

fn append_decimal(s: &mut String, n: u64)
    ensures
        final(s)@ == old(s)@ + decimal(n as nat),
    decreases n,
{
    if n >= 10 {
        append_decimal(s, n / 10);
    }
    s.append(digit_str(n % 10));
    assert(n >= 10 ==> decimal(n as nat) == decimal((n / 10) as nat) + digit_text((n % 10) as nat));
}

impl WindowLabel {
    /// The label's text: `main_<n>` or `other_<name>`.
    pub fn text(&self) -> (r: String)
        ensures
            r@ == label_text(self@),
    {
        match self {
            WindowLabel::Primary(n) => {
                let mut r = MAIN_WINDOW_PREFIX.to_owned();
                append_decimal(&mut r, *n);
                r
            },
            WindowLabel::Secondary(name) => {
                let mut r = OTHER_WINDOW_PREFIX.to_owned();
                r.append(name.as_str());
                r
            },
        }
    }
}

} // verus!
