//! Owned source-location records and their total order.

use vstd::prelude::*;

use std::cmp::Ordering;
use crate::foreign::LlvmValueInfo;
use vstd::string::StrSliceExecFns;

verus! {

/// Spec-level value of a [`DebugLoc`]: the same four fields with text
/// abstracted to character sequences.  Two `DebugLoc`s with one model are
/// the same location.
#[verifier::ext_equal]
pub ghost struct LocModel {
    pub line: u32,
    pub col: Option<u32>,
    pub filename: Seq<char>,
    pub directory: Option<Seq<char>>,
}

/// Describes a "debug location" (source location).
///
/// A record exists for a node iff the foreign handle reports a non-empty
/// filename; line, column and directory mean nothing without one, so the
/// absence of a filename is the sole mark of "no debug info".
#[derive(Clone, Debug, Eq, Hash)]
pub struct DebugLoc {
    /// The source line number
    pub line: u32,
    /// The source column number
    ///
    /// Instructions and terminators have this info (and will have `Some`
    /// here), while global variables and functions do not have this info
    /// (and will have `None`)
    pub col: Option<u32>,
    /// The source filename
    pub filename: String,
    /// The source directory, if available
    pub directory: Option<String>,
}

impl View for DebugLoc {
    type V = LocModel;

    open spec fn view(&self) -> LocModel {
        LocModel {
            line: self.line,
            col: self.col,
            filename: self.filename@,
            directory: self.directory.deep_view(),
        }
    }
}

impl DeepView for DebugLoc {
    type V = LocModel;

    open spec fn deep_view(&self) -> LocModel {
        self.view()
    }
}

/// Lexicographic order on character sequences, by code point.
pub open spec fn chars_cmp(a: Seq<char>, b: Seq<char>) -> Ordering
    decreases a.len(),
{
    if a.len() == 0 && b.len() == 0 {
        Ordering::Equal
    } else if a.len() == 0 {
        Ordering::Less
    } else if b.len() == 0 {
        Ordering::Greater
    } else if a[0] < b[0] {
        Ordering::Less
    } else if a[0] > b[0] {
        Ordering::Greater
    } else {
        chars_cmp(a.skip(1), b.skip(1))
    }
}

/// Absent text sorts before any present text.
pub open spec fn opt_chars_cmp(a: Option<Seq<char>>, b: Option<Seq<char>>) -> Ordering {
    match (a, b) {
        (None, None) => Ordering::Equal,
        (None, Some(_)) => Ordering::Less,
        (Some(_), None) => Ordering::Greater,
        (Some(x), Some(y)) => chars_cmp(x, y),
    }
}

pub open spec fn u32_cmp(a: u32, b: u32) -> Ordering {
    if a < b {
        Ordering::Less
    } else if a > b {
        Ordering::Greater
    } else {
        Ordering::Equal
    }
}

/// An absent column sorts before any present one.
pub open spec fn opt_u32_cmp(a: Option<u32>, b: Option<u32>) -> Ordering {
    match (a, b) {
        (None, None) => Ordering::Equal,
        (None, Some(_)) => Ordering::Less,
        (Some(_), None) => Ordering::Greater,
        (Some(x), Some(y)) => u32_cmp(x, y),
    }
}

/// The order on location records: by directory, then filename, then line,
/// then column.  Callers sort diagnostics and deduplicate by this order, so
/// it must be reproduced exactly.
pub open spec fn loc_cmp(a: LocModel, b: LocModel) -> Ordering {
    let d = opt_chars_cmp(a.directory, b.directory);
    if d != Ordering::Equal {
        d
    } else {
        let f = chars_cmp(a.filename, b.filename);
        if f != Ordering::Equal {
            f
        } else {
            let l = u32_cmp(a.line, b.line);
            if l != Ordering::Equal {
                l
            } else {
                opt_u32_cmp(a.col, b.col)
            }
        }
    }
}

pub(crate) proof fn lemma_chars_cmp_equal(a: Seq<char>, b: Seq<char>)
    ensures
        (chars_cmp(a, b) == Ordering::Equal) <==> (a == b),
    decreases a.len(),
{
    if a.len() == 0 && b.len() == 0 {
        assert(a =~= b);
    } else if a.len() == 0 || b.len() == 0 {
        assert(a != b);
    } else if a[0] != b[0] {
        assert(a != b);
    } else {
        lemma_chars_cmp_equal(a.skip(1), b.skip(1));
        if a.skip(1) == b.skip(1) {
            assert forall|i: int| 0 <= i < a.len() implies a[i] == b[i] by {
                if i > 0 {
                    assert(a.skip(1)[i - 1] == b.skip(1)[i - 1]);
                }
            }
            assert(a =~= b);
        }
        if a == b {
            assert(a.skip(1) =~= b.skip(1));
        }
    }
}

proof fn lemma_chars_cmp_trans(a: Seq<char>, b: Seq<char>, c: Seq<char>)
    requires
        chars_cmp(a, b) == Ordering::Less,
        chars_cmp(b, c) == Ordering::Less,
    ensures
        chars_cmp(a, c) == Ordering::Less,
    decreases a.len(),
{
    if a.len() == 0 {
    } else {
        if a[0] == b[0] && b[0] == c[0] {
            lemma_chars_cmp_trans(a.skip(1), b.skip(1), c.skip(1));
        }
    }
}

proof fn lemma_chars_cmp_flip(a: Seq<char>, b: Seq<char>)
    ensures
        (chars_cmp(a, b) == Ordering::Less) <==> (chars_cmp(b, a) == Ordering::Greater),
        (chars_cmp(a, b) == Ordering::Equal) <==> (chars_cmp(b, a) == Ordering::Equal),
    decreases a.len(),
{
    if a.len() != 0 && b.len() != 0 {
        lemma_chars_cmp_flip(a.skip(1), b.skip(1));
    }
}

proof fn lemma_opt_chars_cmp_equal(a: Option<Seq<char>>, b: Option<Seq<char>>)
    ensures
        (opt_chars_cmp(a, b) == Ordering::Equal) <==> (a == b),
{
    if a is Some && b is Some {
        lemma_chars_cmp_equal(a->0, b->0);
    }
}

proof fn lemma_opt_chars_cmp_trans(a: Option<Seq<char>>, b: Option<Seq<char>>, c: Option<
    Seq<char>,
>)
    requires
        opt_chars_cmp(a, b) == Ordering::Less,
        opt_chars_cmp(b, c) == Ordering::Less,
    ensures
        opt_chars_cmp(a, c) == Ordering::Less,
{
    if a is Some && b is Some && c is Some {
        lemma_chars_cmp_trans(a->0, b->0, c->0);
    }
}

proof fn lemma_opt_chars_cmp_flip(a: Option<Seq<char>>, b: Option<Seq<char>>)
    ensures
        (opt_chars_cmp(a, b) == Ordering::Less) <==> (opt_chars_cmp(b, a) == Ordering::Greater),
        (opt_chars_cmp(a, b) == Ordering::Equal) <==> (opt_chars_cmp(b, a) == Ordering::Equal),
{
    if a is Some && b is Some {
        lemma_chars_cmp_flip(a->0, b->0);
    }
}

/// The order on location records is transitive: together with
/// [`lemma_loc_cmp_flip`] and [`lemma_loc_cmp_equal_iff`] this makes it a
/// strict total order on the ranks `Less`, `Equal`, `Greater`.
pub proof fn lemma_loc_cmp_trans(a: LocModel, b: LocModel, c: LocModel)
    requires
        loc_cmp(a, b) == Ordering::Less,
        loc_cmp(b, c) == Ordering::Less,
    ensures
        loc_cmp(a, c) == Ordering::Less,
{
    let dab = opt_chars_cmp(a.directory, b.directory);
    let dbc = opt_chars_cmp(b.directory, c.directory);
    lemma_opt_chars_cmp_equal(a.directory, b.directory);
    lemma_opt_chars_cmp_equal(b.directory, c.directory);
    if dab == Ordering::Less && dbc == Ordering::Less {
        lemma_opt_chars_cmp_trans(a.directory, b.directory, c.directory);
    } else if dab == Ordering::Equal && dbc == Ordering::Equal {
        let fab = chars_cmp(a.filename, b.filename);
        let fbc = chars_cmp(b.filename, c.filename);
        lemma_chars_cmp_equal(a.filename, b.filename);
        lemma_chars_cmp_equal(b.filename, c.filename);
        if fab == Ordering::Less && fbc == Ordering::Less {
            lemma_chars_cmp_trans(a.filename, b.filename, c.filename);
        }
    }
}

/// Comparing in the opposite direction reverses the rank: the order has no
/// two-element cycles.
pub proof fn lemma_loc_cmp_flip(a: LocModel, b: LocModel)
    ensures
        (loc_cmp(a, b) == Ordering::Less) <==> (loc_cmp(b, a) == Ordering::Greater),
        (loc_cmp(a, b) == Ordering::Equal) <==> (loc_cmp(b, a) == Ordering::Equal),
{
    lemma_opt_chars_cmp_flip(a.directory, b.directory);
    lemma_chars_cmp_flip(a.filename, b.filename);
}

/// Records rank `Equal` exactly when they are structurally equal, so the
/// order agrees with equality (and with anything, such as a hash, that is a
/// function of the record's fields).
pub proof fn lemma_loc_cmp_equal_iff(a: LocModel, b: LocModel)
    ensures
        (loc_cmp(a, b) == Ordering::Equal) <==> (a == b),
{
    lemma_opt_chars_cmp_equal(a.directory, b.directory);
    lemma_chars_cmp_equal(a.filename, b.filename);
    if loc_cmp(a, b) == Ordering::Equal {
        assert(a =~= b);
    }
}

/// The record a foreign handle's debug-location answers reconstruct to,
/// column left absent: none at all unless a non-empty filename is
/// reported, else the reported line, filename and directory.
pub open spec fn no_col_model(v: LlvmValueInfo) -> Option<LocModel> {
    match v.filename {
        None => None,
        Some(f) => if f@.len() == 0 {
            None
        } else {
            Some(
                LocModel {
                    line: v.line,
                    col: None,
                    filename: f@,
                    directory: v.directory.deep_view(),
                },
            )
        },
    }
}

/// As [`no_col_model`], but with the reported column filled in whenever a
/// record exists at all.
pub open spec fn with_col_model(v: LlvmValueInfo) -> Option<LocModel> {
    match no_col_model(v) {
        None => None,
        Some(m) => Some(LocModel { col: Some(v.col), ..m }),
    }
}

fn clone_opt_string(s: &Option<String>) -> (r: Option<String>)
    ensures
        r == *s,
{
    match s {
        None => None,
        Some(x) => Some(x.clone()),
    }
}

/// Lexicographic comparison of two strings, character by character.
pub(crate) fn str_cmp(a: &str, b: &str) -> (r: Ordering)
    ensures
        r == chars_cmp(a@, b@),
{
    let alen = a.unicode_len();
    let blen = b.unicode_len();
    let mut i: usize = 0;
    proof {
        assert(a@.skip(0) =~= a@);
        assert(b@.skip(0) =~= b@);
    }
    loop
        invariant
            i <= alen,
            i <= blen,
            alen == a@.len(),
            blen == b@.len(),
            chars_cmp(a@, b@) == chars_cmp(a@.skip(i as int), b@.skip(i as int)),
        decreases alen - i,
    {
        if i == alen && i == blen {
            return Ordering::Equal;
        }
        if i == alen {
            return Ordering::Less;
        }
        if i == blen {
            return Ordering::Greater;
        }
        let ca = a.get_char(i);
        let cb = b.get_char(i);
        if ca < cb {
            return Ordering::Less;
        }
        if ca > cb {
            return Ordering::Greater;
        }
        proof {
            assert(a@.skip(i as int).skip(1) =~= a@.skip(i + 1));
            assert(b@.skip(i as int).skip(1) =~= b@.skip(i + 1));
        }
        i = i + 1;
    }
}

/// Comparison of optional strings, with `None` first.
fn opt_str_cmp(a: &Option<String>, b: &Option<String>) -> (r: Ordering)
    ensures
        r == opt_chars_cmp(a.deep_view(), b.deep_view()),
{
    match (a, b) {
        (None, None) => Ordering::Equal,
        (None, Some(_)) => Ordering::Less,
        (Some(_), None) => Ordering::Greater,
        (Some(x), Some(y)) => str_cmp(x.as_str(), y.as_str()),
    }
}

impl DebugLoc {
    /// Compare two records in the order (directory, filename, line, col).
    pub fn cmp(&self, other: &Self) -> (r: Ordering)
        ensures
            r == loc_cmp(self@, other@),
    {
        let d = opt_str_cmp(&self.directory, &other.directory);
        match d {
            Ordering::Less => Ordering::Less,
            Ordering::Greater => Ordering::Greater,
            Ordering::Equal => {
                let f = str_cmp(self.filename.as_str(), other.filename.as_str());
                match f {
                    Ordering::Less => Ordering::Less,
                    Ordering::Greater => Ordering::Greater,
                    Ordering::Equal => {
                        if self.line < other.line {
                            Ordering::Less
                        } else if self.line > other.line {
                            Ordering::Greater
                        } else {
                            match (self.col, other.col) {
                                (None, None) => Ordering::Equal,
                                (None, Some(_)) => Ordering::Less,
                                (Some(_), None) => Ordering::Greater,
                                (Some(x), Some(y)) => {
                                    if x < y {
                                        Ordering::Less
                                    } else if x > y {
                                        Ordering::Greater
                                    } else {
                                        Ordering::Equal
                                    }
                                },
                            }
                        }
                    },
                }
            },
        }
    }
}

impl DebugLoc {
    /// Reconstruct the location of a foreign handle, leaving the column
    /// absent.
    ///
    /// `value` must report on an instruction, terminator, global variable
    /// or function.  Returns `None` if the handle has no debug location:
    /// a missing or empty filename is always read as a missing location,
    /// whatever the line and directory queries would report, so no record
    /// with a meaningless filename is ever fabricated.  This gate is the
    /// one place that decides whether a location exists.
    pub fn from_llvm_no_col(value: &LlvmValueInfo) -> (r: Option<DebugLoc>)
        ensures
            r.deep_view() == no_col_model(*value),
    {
        match &value.filename {
            None => None,
            Some(filename) => {
                if filename.as_str().is_empty() {
                    None
                } else {
                    let r = Some(
                        DebugLoc {
                            line: value.line,
                            col: None,
                            filename: filename.clone(),
                            directory: clone_opt_string(&value.directory),
                        },
                    );
                    proof {
                        assert(r.deep_view() =~= no_col_model(*value));
                    }
                    r
                }
            },
        }
    }

    /// Reconstruct the location of a foreign handle, with its column.
    ///
    /// `value` must report on an instruction or terminator: only those
    /// handle kinds answer the column query.  Returns `None` exactly when
    /// [`DebugLoc::from_llvm_no_col`] does.
    pub fn from_llvm_with_col(value: &LlvmValueInfo) -> (r: Option<DebugLoc>)
        requires
            value.col_allowed(),
        ensures
            r.deep_view() == with_col_model(*value),
    {
        match Self::from_llvm_no_col(value) {
            Some(mut debugloc) => {
                debugloc.col = Some(value.col);
                let r = Some(debugloc);
                proof {
                    assert(r.deep_view() =~= with_col_model(*value));
                }
                r
            },
            None => None,
        }
    }
}

/// Reconstruction is deterministic: any two results that meet the
/// reconstruction contract for one foreign report, through the same
/// variant, are structurally equal.
pub proof fn lemma_reconstruction_deterministic(
    v: LlvmValueInfo,
    r1: Option<DebugLoc>,
    r2: Option<DebugLoc>,
)
    requires
        r1.deep_view() == no_col_model(v) || r1.deep_view() == with_col_model(v),
        r2.deep_view() == no_col_model(v) || r2.deep_view() == with_col_model(v),
        (r1.deep_view() == no_col_model(v)) <==> (r2.deep_view() == no_col_model(v)),
    ensures
        r1.deep_view() == r2.deep_view(),
{
}

/// Access to the optional location record a reconstructed node carries.
pub trait HasDebugLoc {
    /// The record the node carries, as the contract of `get_debug_loc`
    /// speaks of it.
    spec fn spec_debug_loc(&self) -> Option<DebugLoc>;

    /// Returns the `DebugLoc` associated with the node, or `None` if it
    /// doesn't have one.
    ///
    /// Reasons something might not have a `DebugLoc` include:
    ///     - the file was compiled without debuginfo
    ///     - for an instruction, it might not directly correspond to any
    ///     source line.  For instance, it may be just setting up the stack
    ///     frame for a function.
    fn get_debug_loc(&self) -> (r: &Option<DebugLoc>)
        ensures
            *r == self.spec_debug_loc(),
    ;
}

impl PartialEq for DebugLoc {
    /// Equality is structural over all four fields.
    fn eq(&self, other: &Self) -> (r: bool) {
        let fields_eq = self.line == other.line && match (self.col, other.col) {
            (None, None) => true,
            (Some(x), Some(y)) => x == y,
            _ => false,
        } && self.filename.eq(&other.filename) && match (&self.directory, &other.directory) {
            (None, None) => true,
            (Some(x), Some(y)) => x.eq(y),
            _ => false,
        };
        proof {
            if fields_eq {
                assert(self@ =~= other@);
            }
        }
        fields_eq
    }
}

impl vstd::std_specs::cmp::PartialEqSpecImpl for DebugLoc {
    open spec fn obeys_eq_spec() -> bool {
        true
    }

    open spec fn eq_spec(&self, other: &Self) -> bool {
        self@ == other@
    }
}

impl PartialOrd for DebugLoc {
    /// The total order of [`DebugLoc::cmp`], always defined.
    fn partial_cmp(&self, other: &Self) -> (r: Option<Ordering>) {
        Some(self.cmp(other))
    }
}

impl vstd::std_specs::cmp::PartialOrdSpecImpl for DebugLoc {
    open spec fn obeys_partial_cmp_spec() -> bool {
        true
    }

    open spec fn partial_cmp_spec(&self, other: &Self) -> Option<Ordering> {
        Some(loc_cmp(self@, other@))
    }
}

} // verus!
