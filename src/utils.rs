//! Where an incoming file is saved: its name is stripped to a bare file name
//! and, on collision, given a suffix.

use vstd::prelude::*;
use crate::ble::texts_of;
use crate::text::{decimal, decimal_text, text_eq};

pub use crate::transfer::{pack_ack, unpack_ack, ACK_SIZE};

verus! {

/// What `Path::file_name` gives for a path text.
pub uninterp spec fn path_file_name(s: Seq<char>) -> Option<Seq<char>>;

/// What `Path::join` gives for a directory and a name.
pub uninterp spec fn path_join(dir: Seq<char>, name: Seq<char>) -> Seq<char>;

/// Relies on `Path::file_name`: the last component of a path, when it is a
/// normal one; a function of the text alone.
#[verifier::external_body]
pub(crate) fn file_name_of(raw: &str) -> (r: Option<String>)
    ensures
        match r {
            Some(n) => path_file_name(raw@) == Some(n@),
            None => path_file_name(raw@) is None,
        },
{
    std::path::Path::new(raw).file_name().map(|f| f.to_string_lossy().into_owned())
}

/// Relies on `Path::join`: `name` appended to `dir` as a path component; a
/// function of the two texts alone.
#[verifier::external_body]
pub(crate) fn join_path(dir: &str, name: &str) -> (r: String)
    ensures
        r@ == path_join(dir@, name@),
{
    std::path::Path::new(dir).join(name).to_string_lossy().into_owned()
}

/// The incoming name stripped of every path component; `unknown_file` when
/// nothing is left.
pub open spec fn safe_name(raw: Seq<char>) -> Seq<char> {
    match path_file_name(raw) {
        Some(n) => n,
        None => "unknown_file"@,
    }
}

/// The index of the last `.` in `s`, or -1.
pub open spec fn last_dot(s: Seq<char>) -> int
    decreases s.len(),
{
    if s.len() == 0 {
        -1
    } else if s.last() == '.' {
        s.len() - 1
    } else {
        last_dot(s.drop_last())
    }
}

/// A file name split into its stem and its extension: at the last dot,
/// where a dot that starts the name does not count, and `..` has no extension.
pub open spec fn split_file_name(n: Seq<char>) -> (Seq<char>, Option<Seq<char>>) {
    if n == ".."@ || last_dot(n) <= 0 {
        (n, None)
    } else {
        (n.subrange(0, last_dot(n)), Some(n.subrange(last_dot(n) + 1, n.len() as int)))
    }
}

/// The stem of the safe name.
pub open spec fn safe_stem(raw: Seq<char>) -> Seq<char> {
    split_file_name(safe_name(raw)).0
}

/// The extension of the safe name with its dot, or nothing.
pub open spec fn safe_ext(raw: Seq<char>) -> Seq<char> {
    match split_file_name(safe_name(raw)).1 {
        Some(e) => "."@ + e,
        None => Seq::empty(),
    }
}

/// `<dir>/<name>`.
pub open spec fn base_candidate(dir: Seq<char>, raw: Seq<char>) -> Seq<char> {
    path_join(dir, safe_name(raw))
}

/// `<dir>/<stem>_1<ext>`.
pub open spec fn simple_candidate(dir: Seq<char>, raw: Seq<char>) -> Seq<char> {
    path_join(dir, safe_stem(raw) + "_1"@ + safe_ext(raw))
}

/// `<dir>/<stem>_<nanos><ext>`.
pub open spec fn stamped_candidate(dir: Seq<char>, raw: Seq<char>, nanos: u128) -> Seq<char> {
    path_join(dir, safe_stem(raw) + "_"@ + decimal(nanos as nat) + safe_ext(raw))
}

/// The path an incoming file is saved under, given the paths that exist:
/// the plain name, else the name with `_1`, else the name with the time.
pub open spec fn unique_path_spec(
    dir: Seq<char>,
    raw: Seq<char>,
    existing: Seq<Seq<char>>,
    nanos: u128,
) -> Seq<char> {
    if !existing.contains(base_candidate(dir, raw)) {
        base_candidate(dir, raw)
    } else if !existing.contains(simple_candidate(dir, raw)) {
        simple_candidate(dir, raw)
    } else {
        stamped_candidate(dir, raw, nanos)
    }
}

/// The parts of an incoming name that the candidate paths are made of.
struct NameParts {
    name: String,
    stem: String,
    ext: String,
}

fn name_parts(raw: &str) -> (r: NameParts)
    ensures
        r.name@ == safe_name(raw@),
        r.stem@ == safe_stem(raw@),
        r.ext@ == safe_ext(raw@),
{
    let name = match file_name_of(raw) {
        Some(n) => n,
        None => String::from_str("unknown_file"),
    };
    let (stem, ext) = split_name(name.as_str());
    NameParts { name, stem, ext }
}

/// The stem of a file name and its extension with the dot, as `split_file_name` splits it.
pub fn split_name(n: &str) -> (r: (String, String))
    ensures
        r.0@ == split_file_name(n@).0,
        r.1@ == match split_file_name(n@).1 {
            Some(e) => "."@ + e,
            None => Seq::<char>::empty(),
        },
{
    let len = n.unicode_len();
    let mut dot: Option<usize> = None;
    let mut i: usize = 0;
    while i < len
        invariant
            len == n@.len(),
            i <= len,
            match dot {
                None => last_dot(n@.subrange(0, i as int)) == -1,
                Some(d) => last_dot(n@.subrange(0, i as int)) == d as int && d < i,
            },
        decreases len - i,
    {
        assert(n@.subrange(0, i + 1).drop_last() =~= n@.subrange(0, i as int));
        if n.get_char(i) == '.' {
            dot = Some(i);
        }
        i = i + 1;
    }
    assert(n@.subrange(0, len as int) =~= n@);
    let d = match dot {
        Some(d) => d,
        None => 0,
    };
    if text_eq(n, "..") || d == 0 {
        return (String::from_str(n), String::new());
    }
    let stem = String::from_str(n.substring_char(0, d));
    let ext = String::from_str(".").concat(n.substring_char(d + 1, len));
    (stem, ext)
}

/// The first two candidate paths for an incoming file: `<dir>/<name>` and
/// `<dir>/<stem>_1<ext>`. The caller tells which exist.
pub fn path_candidates(dir: &str, raw_filename: &str) -> (r: (String, String))
    ensures
        r.0@ == base_candidate(dir@, raw_filename@),
        r.1@ == simple_candidate(dir@, raw_filename@),
{
    let parts = name_parts(raw_filename);
    let base = join_path(dir, parts.name.as_str());
    let simple_name = parts.stem.clone().concat("_1").concat(parts.ext.as_str());
    let simple = join_path(dir, simple_name.as_str());
    (base, simple)
}

/// Whether `p` is one of `v`.
pub fn contains_path(v: &Vec<String>, p: &str) -> (r: bool)
    ensures
        r == texts_of(v@).contains(p@),
{
    let n = v.len();
    let mut i: usize = 0;
    while i < n
        invariant
            n == v@.len(),
            i <= n,
            forall|j: int| 0 <= j < i ==> v@[j]@ != p@,
        decreases n - i,
    {
        if text_eq(v[i].as_str(), p) {
            assert(texts_of(v@)[i as int] == p@);
            return true;
        }
        i = i + 1;
    }
    assert(!texts_of(v@).contains(p@)) by {
        assert forall|j: int| 0 <= j < n implies texts_of(v@)[j] != p@ by {
            assert(texts_of(v@)[j] == v@[j]@);
        }
    }
    false
}

/// The path that an incoming file named `raw_filename` is saved under in
/// `dir`, where `existing` lists the paths that exist and `nanos` is the
/// time in nanoseconds since the Unix epoch.
pub fn get_unique_path(dir: &str, raw_filename: &str, existing: &Vec<String>, nanos: u128) -> (r:
    String)
    ensures
        r@ == unique_path_spec(dir@, raw_filename@, texts_of(existing@), nanos),
{
    let parts = name_parts(raw_filename);
    let base = join_path(dir, parts.name.as_str());
    if !contains_path(existing, base.as_str()) {
        return base;
    }
    let simple_name = parts.stem.clone().concat("_1").concat(parts.ext.as_str());
    let simple = join_path(dir, simple_name.as_str());
    if !contains_path(existing, simple.as_str()) {
        return simple;
    }
    let stamp = decimal_text(nanos);
    let stamped_name = parts.stem.concat("_").concat(stamp.as_str()).concat(parts.ext.as_str());
    join_path(dir, stamped_name.as_str())
}

/// The path chosen for an incoming file is none of the paths that existed,
/// provided the time-stamped name is not taken either.
pub proof fn lemma_unique_path_is_free(
    dir: Seq<char>,
    raw: Seq<char>,
    existing: Seq<Seq<char>>,
    nanos: u128,
)
    requires
        !existing.contains(stamped_candidate(dir, raw, nanos)),
    ensures
        !existing.contains(unique_path_spec(dir, raw, existing, nanos)),
{
}

/// Relies on `whoami::username`: the name of the user running this process,
/// which depends on the machine.
#[verifier::external_body]
fn user_name() -> String {
    whoami::username()
}

/// Relies on `whoami::devicename`: the name of this device, which depends on
/// the machine.
#[verifier::external_body]
pub(crate) fn device_name() -> String {
    whoami::devicename()
}

/// A user name that machines share by default and so names no one.
pub open spec fn is_generic_user(name: Seq<char>) -> bool {
    name == "user"@ || name == "root"@ || name == "ubuntu"@ || name == "admin"@ || name
        == "raspberry"@
}

/// Whether a user name is one that machines share by default.
pub fn generic_user(name: &str) -> (r: bool)
    ensures
        r == is_generic_user(name@),
{
    text_eq(name, "user") || text_eq(name, "root") || text_eq(name, "ubuntu") || text_eq(
        name,
        "admin",
    ) || text_eq(name, "raspberry")
}

/// The name this node shows: the user's name, or the device's name when the
/// user's name is a default one.
pub fn system_name_of(user: String, device: String) -> (r: String)
    ensures
        r@ == if is_generic_user(user@) {
            device@
        } else {
            user@
        },
{
    if generic_user(user.as_str()) {
        device
    } else {
        user
    }
}

/// The name this node shows, from the running user's name and this device's
/// name as `system_name_of` chooses.
pub fn get_system_name() -> String {
    system_name_of(user_name(), device_name())
}

/// `10^k`.
pub open spec fn pow10(k: nat) -> nat
    decreases k,
{
    if k == 0 {
        1
    } else {
        10 * pow10((k - 1) as nat)
    }
}

/// The decimal text of a number of at least `10^k` has more than `k` digits.
pub proof fn lemma_decimal_min_len(n: nat, k: nat)
    requires
        n >= pow10(k),
    ensures
        decimal(n).len() >= k + 1,
    decreases k,
{
    if k > 0 {
        let p = pow10((k - 1) as nat);
        assert(p >= 1) by {
            lemma_pow10_positive((k - 1) as nat);
        }
        assert(n / 10 >= p) by (nonlinear_arith)
            requires
                n >= 10 * p,
        ;
        lemma_decimal_min_len(n / 10, (k - 1) as nat);
    }
}

proof fn lemma_pow10_positive(k: nat)
    ensures
        pow10(k) >= 1,
    decreases k,
{
    if k > 0 {
        lemma_pow10_positive((k - 1) as nat);
    }
}

/// Every character of a decimal text is an ASCII digit.
pub proof fn lemma_decimal_is_digits(n: nat)
    ensures
        forall|i: int| 0 <= i < decimal(n).len() ==> '0' <= #[trigger] decimal(n)[i] <= '9',
    decreases n,
{
    if n >= 10 {
        lemma_decimal_is_digits(n / 10);
        let d = decimal(n / 10);
        assert forall|i: int| 0 <= i < decimal(n).len() implies '0' <= #[trigger] decimal(n)[i]
            <= '9' by {
            if i < d.len() {
                assert(decimal(n)[i] == d[i]);
            }
        }
    }
}

/// `notes.txt` splits into the stem `notes` and the extension `txt`.
pub proof fn lemma_split_notes()
    ensures
        split_file_name("notes.txt"@) == ("notes"@, Some("txt"@)),
{
    reveal_strlit("notes.txt");
    reveal_strlit("notes");
    reveal_strlit("txt");
    reveal_strlit("..");
    let n = "notes.txt"@;
    assert(n =~= seq!['n', 'o', 't', 'e', 's', '.', 't', 'x', 't']);
    let n1 = n.drop_last();
    let n2 = n1.drop_last();
    let n3 = n2.drop_last();
    assert(n1 =~= seq!['n', 'o', 't', 'e', 's', '.', 't', 'x']);
    assert(n2 =~= seq!['n', 'o', 't', 'e', 's', '.', 't']);
    assert(n3 =~= seq!['n', 'o', 't', 'e', 's', '.']);
    assert(last_dot(n3) == 5);
    assert(last_dot(n2) == 5);
    assert(last_dot(n1) == 5);
    assert(last_dot(n) == 5);
    assert(n != ".."@);
    assert(n.subrange(0, 5) =~= "notes"@);
    assert(n.subrange(6, 9) =~= "txt"@);
}

/// When `<name>` and `<stem>_1<ext>` both exist in the directory, an
/// incoming `notes.txt` is saved as `notes_<digits>.txt`, where the digits
/// are those of the time in nanoseconds: ten or more once that time is at
/// least a second.
pub proof fn lemma_third_collision(dir: Seq<char>, raw: Seq<char>, existing: Seq<Seq<char>>, nanos: u128)
    requires
        safe_name(raw) == "notes.txt"@,
        existing.contains(base_candidate(dir, raw)),
        existing.contains(simple_candidate(dir, raw)),
        nanos >= 1000000000,
    ensures
        unique_path_spec(dir, raw, existing, nanos) == path_join(
            dir,
            "notes"@ + "_"@ + decimal(nanos as nat) + ".txt"@,
        ),
        decimal(nanos as nat).len() >= 10,
        forall|i: int| 0 <= i < decimal(nanos as nat).len() ==> '0' <= #[trigger] decimal(
            nanos as nat,
        )[i] <= '9',
{
    lemma_split_notes();
    reveal_with_fuel(pow10, 10);
    assert(pow10(9) == 1000000000);
    lemma_decimal_min_len(nanos as nat, 9);
    lemma_decimal_is_digits(nanos as nat);
    reveal_strlit(".txt");
    reveal_strlit(".");
    reveal_strlit("txt");
    assert("."@ + "txt"@ =~= ".txt"@);
}

} // verus!
