//! Permissions that a plugin asks for.

use crate::plugins::{kind_name_of, ScriptValue, TypeError};
use crate::seqs::{item, lemma_prefix_ends, lemma_prefix_step, prefix};
use crate::strict::{strict_order, strict_partial_ord};
use core::cmp::Ordering;
use vstd::prelude::*;
use vstd::std_specs::cmp::PartialEqSpec;

verus! {

/// Any kind of permission, with varying degrees.
///
/// An implementor defines two levels: `all`, as much as it can represent, and
/// `none`, no permission at all.
pub trait Permission: Eq + PartialOrd + Sized {
    /// The value that `all` returns.
    spec fn most() -> Self;

    /// The value that `none` returns.
    spec fn least() -> Self;

    /// A permission that asks for as much as the implementor can represent.
    fn all() -> (r: Self)
        ensures
            r == Self::most(),
    ;

    /// A permission that asks for nothing.
    fn none() -> (r: Self)
        ensures
            r == Self::least(),
    ;

    /// Whether this permission is the greatest one.
    fn is_all(&self) -> (r: bool)
        ensures
            Self::obeys_eq_spec() ==> r == self.eq_spec(&Self::most()),
    {
        *self == Self::all()
    }

    /// Whether this permission is the empty one.
    fn is_none(&self) -> (r: bool)
        ensures
            Self::obeys_eq_spec() ==> r == self.eq_spec(&Self::least()),
    {
        *self == Self::none()
    }
}

/// Leave to read and to write the emulator's memory.
#[derive(Debug, Clone, Copy, Eq)]
pub struct ReadWritePermissions {
    pub read: bool,
    pub write: bool,
}

impl PartialEq for ReadWritePermissions {
    fn eq(&self, other: &Self) -> (r: bool) {
        self.read == other.read && self.write == other.write
    }
}

impl vstd::std_specs::cmp::PartialEqSpecImpl for ReadWritePermissions {
    open spec fn obeys_eq_spec() -> bool {
        true
    }

    open spec fn eq_spec(&self, other: &Self) -> bool {
        self.read == other.read && self.write == other.write
    }
}

impl Default for ReadWritePermissions {
    fn default() -> (r: Self)
        ensures
            !r.read,
            !r.write,
    {
        ReadWritePermissions { read: false, write: false }
    }
}

/// The order of two switches: off comes before on.
pub open spec fn switch_order(a: bool, b: bool) -> Ordering {
    if a == b {
        Ordering::Equal
    } else if b {
        Ordering::Less
    } else {
        Ordering::Greater
    }
}

fn order_switches(a: bool, b: bool) -> (r: Ordering)
    ensures
        r == switch_order(a, b),
{
    if a == b {
        Ordering::Equal
    } else if b {
        Ordering::Less
    } else {
        Ordering::Greater
    }
}

impl PartialOrd for ReadWritePermissions {
    /// The strict order: more of one leave and no less of the other.
    fn partial_cmp(&self, other: &Self) -> (r: Option<Ordering>) {
        let fields = vec![
            Some(order_switches(self.read, other.read)),
            Some(order_switches(self.write, other.write)),
        ];
        proof {
            assert(fields@ =~= seq![
                Some(switch_order(self.read, other.read)),
                Some(switch_order(self.write, other.write)),
            ]);
        }
        strict_partial_ord(fields.as_slice())
    }
}

impl vstd::std_specs::cmp::PartialOrdSpecImpl for ReadWritePermissions {
    open spec fn obeys_partial_cmp_spec() -> bool {
        true
    }

    open spec fn partial_cmp_spec(&self, other: &Self) -> Option<Ordering> {
        strict_order(
            seq![
                Some(switch_order(self.read, other.read)),
                Some(switch_order(self.write, other.write)),
            ],
        )
    }
}

impl Permission for ReadWritePermissions {
    open spec fn most() -> Self {
        ReadWritePermissions { read: true, write: true }
    }

    open spec fn least() -> Self {
        ReadWritePermissions { read: false, write: false }
    }

    fn all() -> (r: Self) {
        ReadWritePermissions { read: true, write: true }
    }

    fn none() -> (r: Self) {
        Self::default()
    }
}

/// The bytes of the word `all`.
pub open spec fn word_all() -> Seq<u8> {
    seq![0x61u8, 0x6cu8, 0x6cu8]
}

/// The bytes of the word `none`.
pub open spec fn word_none() -> Seq<u8> {
    seq![0x6eu8, 0x6fu8, 0x6eu8, 0x65u8]
}

/// The bytes of the word `read`.
pub open spec fn word_read() -> Seq<u8> {
    seq![0x72u8, 0x65u8, 0x61u8, 0x64u8]
}

/// The bytes of the word `write`.
pub open spec fn word_write() -> Seq<u8> {
    seq![0x77u8, 0x72u8, 0x69u8, 0x74u8, 0x65u8]
}

fn is_word_all(s: &Vec<u8>) -> (r: bool)
    ensures
        r == (s@ == word_all()),
{
    let r = s.len() == 3 && s[0] == 0x61 && s[1] == 0x6c && s[2] == 0x6c;
    proof {
        if r {
            assert(s@ =~= word_all());
        }
    }
    r
}

fn is_word_none(s: &Vec<u8>) -> (r: bool)
    ensures
        r == (s@ == word_none()),
{
    let r = s.len() == 4 && s[0] == 0x6e && s[1] == 0x6f && s[2] == 0x6e && s[3] == 0x65;
    proof {
        if r {
            assert(s@ =~= word_none());
        }
    }
    r
}

fn is_word_read(s: &Vec<u8>) -> (r: bool)
    ensures
        r == (s@ == word_read()),
{
    let r = s.len() == 4 && s[0] == 0x72 && s[1] == 0x65 && s[2] == 0x61 && s[3] == 0x64;
    proof {
        if r {
            assert(s@ =~= word_read());
        }
    }
    r
}

fn is_word_write(s: &Vec<u8>) -> (r: bool)
    ensures
        r == (s@ == word_write()),
{
    let r = s.len() == 5 && s[0] == 0x77 && s[1] == 0x72 && s[2] == 0x69 && s[3] == 0x74 && s[4]
        == 0x65;
    proof {
        if r {
            assert(s@ =~= word_write());
        }
    }
    r
}

/// What one entry of a permissions table asks for.
#[derive(Debug, Clone, Copy, PartialEq, Eq, Structural)]
pub enum PermRequest {
    Read,
    Write,
    /// A listed word that names no permission.
    Unknown,
    /// An entry that is not a listed word: its key is no integer or its value
    /// no string.
    Skipped,
}

/// What the table entry `key = value` asks for.
pub open spec fn request_of(key: ScriptValue, value: ScriptValue) -> PermRequest {
    match (key, value) {
        (ScriptValue::Integer(_), ScriptValue::String(s)) => if s@ == word_read() {
            PermRequest::Read
        } else if s@ == word_write() {
            PermRequest::Write
        } else {
            PermRequest::Unknown
        },
        _ => PermRequest::Skipped,
    }
}

/// Some entry of the table asks for `what`.
pub open spec fn requested(entries: Seq<(ScriptValue, ScriptValue)>, what: PermRequest) -> bool {
    exists|i: int| 0 <= i < entries.len() && request_of(entries[i].0, entries[i].1) == what
}

/// What the table entry `key = value` asks for.
pub fn entry_request(key: &ScriptValue, value: &ScriptValue) -> (r: PermRequest)
    ensures
        r == request_of(*key, *value),
{
    match (key, value) {
        (ScriptValue::Integer(_), ScriptValue::String(s)) => if is_word_read(s) {
            PermRequest::Read
        } else if is_word_write(s) {
            PermRequest::Write
        } else {
            PermRequest::Unknown
        },
        _ => PermRequest::Skipped,
    }
}

impl ReadWritePermissions {
    /// Reads permissions out of what a plugin declares.
    ///
    /// Nothing and `false` grant nothing; `true` grants all; the words `all`
    /// and `none` say what they grant; a table grants each of `read` and
    /// `write` that it lists under an integer key, and its other entries are
    /// passed over. Any other string, and any other type, is an error.
    pub fn from_value(value: &ScriptValue) -> (r: Result<Self, TypeError>)
        ensures
            match *value {
                ScriptValue::Nil | ScriptValue::Boolean(false) => r == Ok::<Self, TypeError>(
                    Self::least(),
                ),
                ScriptValue::Boolean(true) => r == Ok::<Self, TypeError>(Self::most()),
                ScriptValue::String(s) => if s@ == word_all() {
                    r == Ok::<Self, TypeError>(Self::most())
                } else if s@ == word_none() {
                    r == Ok::<Self, TypeError>(Self::least())
                } else {
                    r matches Err(e) && e.expected@ == "all / none"@ && e.found@ == ""@
                },
                ScriptValue::Table(entries) => r matches Ok(p) && p.read == requested(
                    entries@,
                    PermRequest::Read,
                ) && p.write == requested(entries@, PermRequest::Write),
                other => r matches Err(e) && e.expected@ == "permissions table"@ && e.found@
                    == kind_name_of(other),
            },
    {
        match value {
            ScriptValue::Nil | ScriptValue::Boolean(false) => Ok(Self::none()),
            ScriptValue::Boolean(true) => Ok(Self::all()),
            ScriptValue::String(s) => if is_word_all(s) {
                Ok(Self::all())
            } else if is_word_none(s) {
                Ok(Self::none())
            } else {
                Err(TypeError { expected: "all / none", found: "" })
            },
            ScriptValue::Table(tab) => {
                let mut perms = Self::none();
                let mut i: usize = 0;
                proof {
                    lemma_prefix_ends(tab@);
                }
                while i < tab.len()
                    invariant
                        i <= tab.len(),
                        perms.read == requested(prefix(tab@, i), PermRequest::Read),
                        perms.write == requested(prefix(tab@, i), PermRequest::Write),
                    decreases tab.len() - i,
                {
                    proof {
                        lemma_prefix_step(tab@, i);
                        lemma_requested_push(prefix(tab@, i), item(tab@, i), PermRequest::Read);
                        lemma_requested_push(prefix(tab@, i), item(tab@, i), PermRequest::Write);
                    }
                    match entry_request(&tab[i].0, &tab[i].1) {
                        PermRequest::Read => perms.read = true,
                        PermRequest::Write => perms.write = true,
                        _ => {},
                    }
                    i += 1;
                }
                proof {
                    lemma_prefix_ends(tab@);
                }
                Ok(perms)
            },
            other => Err(TypeError { expected: "permissions table", found: other.kind_name() }),
        }
    }
}

/// One more entry asks for `what`, or an earlier one did.
pub proof fn lemma_requested_push(
    entries: Seq<(ScriptValue, ScriptValue)>,
    entry: (ScriptValue, ScriptValue),
    what: PermRequest,
)
    ensures
        requested(entries.push(entry), what) <==> requested(entries, what) || request_of(
            entry.0,
            entry.1,
        ) == what,
{
    let ext = entries.push(entry);
    if requested(entries, what) {
        let i = choose|i: int|
            0 <= i < entries.len() && request_of(entries[i].0, entries[i].1) == what;
        assert(ext[i] == entries[i]);
    }
    if request_of(entry.0, entry.1) == what {
        assert(ext[ext.len() - 1] == entry);
    }
    if requested(ext, what) {
        let i = choose|i: int| 0 <= i < ext.len() && request_of(ext[i].0, ext[i].1) == what;
        if i < entries.len() {
            assert(ext[i] == entries[i]);
        }
    }
}

} // verus!
