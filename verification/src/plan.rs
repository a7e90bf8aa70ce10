//! The rename plan and the pipeline's decisions.
//!
//! Planning validates the two roots, resolves each enumerated file's
//! capture date, and pairs each source path with its templated destination.
//! Execution decisions — skip an entry whose destination exists, count
//! progress, judge a directory listing blank — are pure functions here; the
//! filesystem work around them stays outside the crate.

use crate::datetime::{valid_date, Date};
use crate::resolve::{resolve_date, resolver_post, spec_classify, str_eq_chars, view_opt_bytes, MediaKind};
use crate::template::{chars_of_str, push_all, resolve_template, spec_resolve_template, string_from_chars};
use vstd::prelude::*;

verus! {

/// A rename plan: source and destination path per eligible file, in
/// discovery order.
#[derive(Clone, Debug)]
pub struct Commit {
    pub entries: Vec<(String, String)>,
}

/// One progress update: entries completed so far, inclusive of the
/// current one, out of the fixed total.
#[derive(Clone, Copy, Debug, PartialEq, Eq, Structural)]
pub struct Progress {
    pub complete: usize,
    pub total: usize,
}

impl Progress {
    /// The update emitted after the entry at `index` of a plan of `total`
    /// entries.
    pub fn new(index: usize, total: usize) -> (p: Progress)
        requires
            index < total,
        ensures
            p.complete == index + 1,
            p.total == total,
    {
        Progress { complete: index + 1, total }
    }
}

/// The persisted preferences: a tagged schema with the two roots and the
/// template as plain strings.
#[derive(Clone, Debug)]
pub enum Config {
    V0 { source: String, target: String, pattern: String },
}

impl Default for Config {
    /// Empty roots and an empty template.
    fn default() -> (c: Config)
        ensures
            c matches Config::V0 { source, target, pattern } && source@ =~= Seq::<char>::empty()
                && target@ =~= Seq::<char>::empty() && pattern@ =~= Seq::<char>::empty(),
    {
        Config::V0 { source: String::new(), target: String::new(), pattern: String::new() }
    }
}

/// Rejections of the two root arguments, in the order they are judged.
#[derive(Clone, Copy, Debug, PartialEq, Eq, Structural)]
pub enum ValidateError {
    SourceNotAbsolute,
    SourceMissing,
    TargetNotAbsolute,
    SameSourceAndTarget,
}

impl ValidateError {
    /// The human-readable text of the rejection.
    pub fn message(&self) -> (r: String)
        ensures
            *self == ValidateError::SourceNotAbsolute ==> r@ == "Source path must be absolute"@,
            *self == ValidateError::SourceMissing ==> r@ == "Source path does not exist"@,
            *self == ValidateError::TargetNotAbsolute ==> r@ == "Target path must be absolute"@,
            *self == ValidateError::SameSourceAndTarget ==> r@
                == "Source and target path must be different"@,
    {
        match self {
            ValidateError::SourceNotAbsolute => String::from_str("Source path must be absolute"),
            ValidateError::SourceMissing => String::from_str("Source path does not exist"),
            ValidateError::TargetNotAbsolute => String::from_str("Target path must be absolute"),
            ValidateError::SameSourceAndTarget => String::from_str(
                "Source and target path must be different",
            ),
        }
    }
}

/// An absolute path opens with the separator.
pub open spec fn spec_is_absolute(s: Seq<char>) -> bool {
    s.len() > 0 && s[0] == '/'
}

/// `s` opens with the path separator.
pub fn is_absolute_path(s: &str) -> (r: bool)
    ensures
        r == spec_is_absolute(s@),
{
    if s.unicode_len() == 0 {
        false
    } else {
        s.get_char(0) == '/'
    }
}

/// The path with every run of separators collapsed to one.
pub open spec fn spec_collapse(s: Seq<char>) -> Seq<char>
    decreases s.len(),
{
    if s.len() == 0 {
        s
    } else if s.len() >= 2 && s[0] == '/' && s[1] == '/' {
        spec_collapse(s.skip(1))
    } else {
        s.subrange(0, 1) + spec_collapse(s.skip(1))
    }
}

/// The collapsed path with a trailing separator dropped; the root path
/// keeps its one separator.
pub open spec fn spec_normalize_path(s: Seq<char>) -> Seq<char> {
    let c = spec_collapse(s);
    if c.len() > 1 && c.last() == '/' {
        c.drop_last()
    } else {
        c
    }
}

/// The path with every run of separators collapsed to one.
#[verifier::loop_isolation(false)]
fn collapse_chars(s: &Vec<char>) -> (r: Vec<char>)
    ensures
        r@ == spec_collapse(s@),
{
    let mut out: Vec<char> = Vec::new();
    let mut i: usize = 0;
    proof {
        assert(s@.skip(0) =~= s@);
        assert(Seq::<char>::empty() + spec_collapse(s@) =~= spec_collapse(s@));
    }
    while i < s.len()
        invariant
            i <= s@.len(),
            out@ + spec_collapse(s@.skip(i as int)) == spec_collapse(s@),
        decreases s@.len() - i,
    {
        proof {
            assert(s@.skip(i as int).skip(1) =~= s@.skip(i + 1));
            assert(s@.skip(i as int).subrange(0, 1) =~= seq![s@[i as int]]);
        }
        if s[i] == '/' && i + 1 < s.len() && s[i + 1] == '/' {
        } else {
            let c = s[i];
            out.push(c);
        }
        i = i + 1;
    }
    proof {
        assert(s@.skip(s@.len() as int) =~= Seq::<char>::empty());
        assert(out@ + Seq::<char>::empty() =~= out@);
    }
    out
}

/// The path with separator runs collapsed and a trailing separator
/// dropped, the form on which two paths are compared.
pub fn normalize_path(s: &str) -> (r: Vec<char>)
    ensures
        r@ == spec_normalize_path(s@),
{
    let mut c = collapse_chars(&chars_of_str(s));
    if c.len() > 1 && c[c.len() - 1] == '/' {
        c.pop();
        proof {
            assert(c@ =~= spec_normalize_path(s@));
        }
    }
    c
}

/// Judges the two roots in the order the pipeline does: the source must be
/// absolute and present, the target absolute, and the two must name
/// different paths.
pub fn validate(source: &str, target: &str, source_exists: bool) -> (r: Result<(), ValidateError>)
    ensures
        !spec_is_absolute(source@) ==> r == Err::<(), ValidateError>(
            ValidateError::SourceNotAbsolute,
        ),
        spec_is_absolute(source@) && !source_exists ==> r == Err::<(), ValidateError>(
            ValidateError::SourceMissing,
        ),
        spec_is_absolute(source@) && source_exists && !spec_is_absolute(target@) ==> r == Err::<
            (),
            ValidateError,
        >(ValidateError::TargetNotAbsolute),
        spec_is_absolute(source@) && source_exists && spec_is_absolute(target@) ==> (
        if spec_normalize_path(source@) == spec_normalize_path(target@) {
            r == Err::<(), ValidateError>(ValidateError::SameSourceAndTarget)
        } else {
            r is Ok
        }),
{
    if !is_absolute_path(source) {
        return Err(ValidateError::SourceNotAbsolute);
    }
    if !source_exists {
        return Err(ValidateError::SourceMissing);
    }
    if !is_absolute_path(target) {
        return Err(ValidateError::TargetNotAbsolute);
    }
    let ns = normalize_path(source);
    let nt = normalize_path(target);
    if chars_eq(&ns, &nt) {
        return Err(ValidateError::SameSourceAndTarget);
    }
    Ok(())
}

/// The characters of the two buffers are the same.
fn chars_eq(a: &Vec<char>, b: &Vec<char>) -> (r: bool)
    ensures
        r == (a@ == b@),
{
    if a.len() != b.len() {
        proof {
            if a@ == b@ {
                assert(a@.len() == b@.len());
            }
        }
        return false;
    }
    let mut i: usize = 0;
    while i < a.len()
        invariant
            a@.len() == b@.len(),
            i <= a@.len(),
            forall|t: int| 0 <= t < i ==> a@[t] == b@[t],
        decreases a@.len() - i,
    {
        if a[i] != b[i] {
            return false;
        }
        i = i + 1;
    }
    proof {
        assert(a@ =~= b@);
    }
    true
}

/// The destination root joined with a resolved template: an absolute
/// resolved path replaces the root, as the host's join does.
pub open spec fn spec_join_path(root: Seq<char>, sub: Seq<char>) -> Seq<char> {
    if spec_is_absolute(sub) {
        sub
    } else if root.len() > 0 && root.last() == '/' {
        root + sub
    } else {
        root + seq!['/'] + sub
    }
}

/// Joins the destination root and a resolved template path.
pub fn join_path(root: &str, sub: &str) -> (r: String)
    ensures
        r@ == spec_join_path(root@, sub@),
{
    if is_absolute_path(sub) {
        let v = chars_of_str(sub);
        return string_from_chars(&v);
    }
    let mut out = chars_of_str(root);
    if out.len() == 0 || out[out.len() - 1] != '/' {
        out.push('/');
        proof {
            assert(out@ =~= root@ + seq!['/']);
        }
    }
    let sv = chars_of_str(sub);
    push_all(&mut out, &sv);
    string_from_chars(&out)
}


/// The three-character prefix on which volumes are told apart on hosts
/// that encode the volume in the path (a drive letter, a separator and
/// the letter's colon); a shorter path is its own prefix.
pub open spec fn spec_volume_prefix(s: Seq<char>) -> Seq<char> {
    if s.len() < 3 {
        s
    } else {
        s.subrange(0, 3)
    }
}

/// The two paths lie on different volumes, judged by the three-character
/// prefix comparison of hosts that need it; hosts without that
/// distinction never call this and always rename in place.
pub fn is_cross_volume(source: &str, target: &str) -> (r: bool)
    ensures
        r == (spec_volume_prefix(source@) != spec_volume_prefix(target@)),
{
    let sv = chars_of_str(source);
    let tv = chars_of_str(target);
    let sp = prefix3(&sv);
    let tp = prefix3(&tv);
    !chars_eq(&sp, &tp)
}

/// The first three characters of `v`, or all of a shorter buffer.
fn prefix3(v: &Vec<char>) -> (r: Vec<char>)
    ensures
        r@ == spec_volume_prefix(v@),
{
    let mut out: Vec<char> = Vec::new();
    let mut i: usize = 0;
    while i < v.len() && i < 3
        invariant
            i <= v@.len(),
            i <= 3,
            i < 3 || v@.len() >= 3,
            out@ == v@.subrange(0, i as int),
        decreases 3 - i,
    {
        out.push(v[i]);
        proof {
            assert(out@ =~= v@.subrange(0, i + 1));
        }
        i = i + 1;
    }
    proof {
        if v@.len() < 3 {
            assert(out@ =~= v@);
        }
    }
    out
}

/// One enumerated file as the planner consumes it: its full path, bare
/// name and extension, its bytes when an extractor applies, and the
/// filesystem creation date when the caller could read one.
pub struct FileRecord {
    pub path: String,
    pub file_name: String,
    pub extension: String,
    pub bytes: Option<Vec<u8>>,
    pub fs_created: Option<Date>,
}

/// The destination of one file under a root, template and date.
pub open spec fn spec_plan_entry(
    target_root: Seq<char>,
    pattern: Seq<char>,
    d: Date,
    file_name: Seq<char>,
) -> Seq<char> {
    spec_join_path(target_root, spec_resolve_template(pattern, d, file_name))
}

/// Resolves one file's destination path.
pub fn plan_entry(target_root: &str, pattern: &str, date: &Date, file_name: &str) -> (r: String)
    ensures
        r@ == spec_plan_entry(target_root@, pattern@, *date, file_name@),
{
    let resolved = resolve_template(pattern, date, file_name);
    join_path(target_root, resolved.as_str())
}

/// Builds the rename plan: one entry per enumerated file, pairing its path
/// with the destination its resolved capture date and the template give.
#[verifier::loop_isolation(false)]
pub fn build_plan(files: &Vec<FileRecord>, target_root: &str, pattern: &str) -> (r: Commit)
    requires
        forall|i: int|
            0 <= i < files@.len() ==> (#[trigger] files@[i].fs_created matches Some(c)
                ==> valid_date(c)),
    ensures
        r.entries@.len() == files@.len(),
        forall|i: int|
            0 <= i < files@.len() ==> (#[trigger] r.entries@[i]).0@ == files@[i].path@ && exists|
                d: Date,
            |
                valid_date(d) && r.entries@[i].1@ == #[trigger] spec_plan_entry(
                    target_root@,
                    pattern@,
                    d,
                    files@[i].file_name@,
                ),
        forall|i: int|
            0 <= i < files@.len() && (spec_classify((#[trigger] files@[i]).extension@)
                == MediaKind::Unsupported || files@[i].bytes is None) ==> (files@[i].fs_created
                matches Some(c) ==> r.entries@[i].1@ == spec_plan_entry(
                target_root@,
                pattern@,
                c,
                files@[i].file_name@,
            )),
        forall|i: int|
            0 <= i < files@.len() ==> exists|d: Date|
                resolver_post(
                    (#[trigger] files@[i]).extension@,
                    view_opt_bytes(files@[i].bytes),
                    files@[i].fs_created,
                    d,
                ) && r.entries@[i].1@ == #[trigger] spec_plan_entry(
                    target_root@,
                    pattern@,
                    d,
                    files@[i].file_name@,
                ),
{
    let mut entries: Vec<(String, String)> = Vec::new();
    let mut i: usize = 0;
    while i < files.len()
        invariant
            i <= files@.len(),
            entries@.len() == i,
            forall|t: int|
                0 <= t < i ==> (#[trigger] entries@[t]).0@ == files@[t].path@ && exists|d: Date|
                    valid_date(d) && entries@[t].1@ == #[trigger] spec_plan_entry(
                        target_root@,
                        pattern@,
                        d,
                        files@[t].file_name@,
                    ),
            forall|t: int|
                0 <= t < i && (spec_classify((#[trigger] files@[t]).extension@)
                    == MediaKind::Unsupported || files@[t].bytes is None) ==> (files@[t].fs_created
                    matches Some(c) ==> entries@[t].1@ == spec_plan_entry(
                    target_root@,
                    pattern@,
                    c,
                    files@[t].file_name@,
                )),
            forall|t: int|
                0 <= t < i ==> exists|d: Date|
                    resolver_post(
                        (#[trigger] files@[t]).extension@,
                        view_opt_bytes(files@[t].bytes),
                        files@[t].fs_created,
                        d,
                    ) && entries@[t].1@ == #[trigger] spec_plan_entry(
                        target_root@,
                        pattern@,
                        d,
                        files@[t].file_name@,
                    ),
        decreases files@.len() - i,
    {
        let rec = &files[i];
        let date = resolve_date(rec.extension.as_str(), &rec.bytes, rec.fs_created);
        let dest = plan_entry(target_root, pattern, &date, rec.file_name.as_str());
        let src = rec.path.clone();
        entries.push((src, dest));
        i = i + 1;
    }
    Commit { entries }
}

/// An entry is moved exactly when its destination does not already exist.
pub fn should_move(dest_exists: bool) -> (b: bool)
    ensures
        b == !dest_exists,
{
    !dest_exists
}

/// A directory listing counts as blank when every entry is the platform's
/// incidental marker file.
pub fn is_blank_listing(names: &Vec<String>) -> (r: bool)
    ensures
        r == (forall|i: int| 0 <= i < names@.len() ==> (#[trigger] names@[i])@ == ".DS_Store"@),
{
    let mut i: usize = 0;
    while i < names.len()
        invariant
            i <= names@.len(),
            forall|t: int| 0 <= t < i ==> (#[trigger] names@[t])@ == ".DS_Store"@,
        decreases names@.len() - i,
    {
        let v = chars_of_str(names[i].as_str());
        if !str_eq_chars(&v, ".DS_Store") {
            return false;
        }
        i = i + 1;
    }
    true
}

/// One committed entry over an abstract set of existing paths: skipped
/// when the destination exists, else the source moved to the destination.
pub open spec fn apply_entry(fs: Set<Seq<char>>, src: Seq<char>, dst: Seq<char>) -> Set<Seq<char>> {
    if fs.contains(dst) {
        fs
    } else if fs.contains(src) {
        fs.remove(src).insert(dst)
    } else {
        fs
    }
}

/// A whole plan committed in order over an abstract set of existing paths.
pub open spec fn apply_plan(fs: Set<Seq<char>>, entries: Seq<(Seq<char>, Seq<char>)>) -> Set<
    Seq<char>,
>
    decreases entries.len(),
{
    if entries.len() == 0 {
        fs
    } else {
        apply_plan(apply_entry(fs, entries[0].0, entries[0].1), entries.skip(1))
    }
}

/// The setting under which a commit is idempotent: every source is
/// present, the sources are distinct, and no destination names a source.
/// The last part is needed: with the destination root nested inside the
/// source tree, a destination can name a later entry's source, and a
/// second run would find that destination gone and re-move it.
pub open spec fn plan_separated(fs: Set<Seq<char>>, entries: Seq<(Seq<char>, Seq<char>)>) -> bool {
    &&& forall|i: int| 0 <= i < entries.len() ==> fs.contains((#[trigger] entries[i]).0)
    &&& forall|i: int, j: int|
        0 <= i < entries.len() && 0 <= j < entries.len() ==> (#[trigger] entries[i]).0 != (
        #[trigger] entries[j]).1
    &&& forall|i: int, j: int|
        0 <= i < j < entries.len() ==> (#[trigger] entries[i]).0 != (#[trigger] entries[j]).0
}

/// A path that no entry names as its source survives the whole commit.
proof fn lemma_apply_plan_preserves(
    fs: Set<Seq<char>>,
    entries: Seq<(Seq<char>, Seq<char>)>,
    p: Seq<char>,
)
    requires
        fs.contains(p),
        forall|i: int| 0 <= i < entries.len() ==> (#[trigger] entries[i]).0 != p,
    ensures
        apply_plan(fs, entries).contains(p),
    decreases entries.len(),
{
    if entries.len() > 0 {
        let fs1 = apply_entry(fs, entries[0].0, entries[0].1);
        assert(entries[0].0 != p);
        assert(fs1.contains(p));
        assert(forall|i: int|
            0 <= i < entries.skip(1).len() ==> (#[trigger] entries.skip(1)[i]).0 != p);
        lemma_apply_plan_preserves(fs1, entries.skip(1), p);
    }
}

/// After one commit under the separated setting, every destination
/// exists.
proof fn lemma_apply_plan_dsts_present(fs: Set<Seq<char>>, entries: Seq<(Seq<char>, Seq<char>)>)
    requires
        plan_separated(fs, entries),
    ensures
        forall|i: int|
            0 <= i < entries.len() ==> apply_plan(fs, entries).contains((#[trigger] entries[i]).1),
    decreases entries.len(),
{
    if entries.len() > 0 {
        let src = entries[0].0;
        let dst = entries[0].1;
        let fs1 = apply_entry(fs, src, dst);
        let rest = entries.skip(1);
        assert(fs1.contains(dst));
        assert(plan_separated(fs1, rest)) by {
            assert forall|i: int| 0 <= i < rest.len() implies fs1.contains(
                (#[trigger] rest[i]).0,
            ) by {
                assert(rest[i] == entries[i + 1]);
                assert(fs.contains(entries[i + 1].0));
                assert(entries[i + 1].0 != src);
                assert(entries[i + 1].0 != dst);
            }
            assert forall|i: int, j: int|
                0 <= i < rest.len() && 0 <= j < rest.len() implies (#[trigger] rest[i]).0 != (
            #[trigger] rest[j]).1 by {
                assert(rest[i] == entries[i + 1]);
                assert(rest[j] == entries[j + 1]);
            }
            assert forall|i: int, j: int| 0 <= i < j < rest.len() implies (#[trigger] rest[i]).0
                != (#[trigger] rest[j]).0 by {
                assert(rest[i] == entries[i + 1]);
                assert(rest[j] == entries[j + 1]);
            }
        }
        lemma_apply_plan_dsts_present(fs1, rest);
        assert forall|i: int| 0 <= i < rest.len() implies (#[trigger] rest[i]).0 != dst by {
            assert(rest[i] == entries[i + 1]);
        }
        lemma_apply_plan_preserves(fs1, rest, dst);
        assert forall|i: int| 0 <= i < entries.len() implies apply_plan(fs, entries).contains(
            (#[trigger] entries[i]).1,
        ) by {
            if i == 0 {
            } else {
                assert(rest[i - 1] == entries[i]);
            }
        }
    }
}

/// A commit whose destinations all exist already changes nothing: every
/// entry is skipped.
proof fn lemma_apply_plan_noop(fs: Set<Seq<char>>, entries: Seq<(Seq<char>, Seq<char>)>)
    requires
        forall|i: int| 0 <= i < entries.len() ==> fs.contains((#[trigger] entries[i]).1),
    ensures
        apply_plan(fs, entries) == fs,
    decreases entries.len(),
{
    if entries.len() > 0 {
        assert(fs.contains(entries[0].1));
        assert(apply_entry(fs, entries[0].0, entries[0].1) == fs);
        assert(forall|i: int|
            0 <= i < entries.skip(1).len() ==> fs.contains((#[trigger] entries.skip(1)[i]).1));
        lemma_apply_plan_noop(fs, entries.skip(1));
    }
}

/// Idempotence of Commit: with every source present, sources distinct and
/// no destination naming a source, committing a plan twice leaves exactly
/// the state one commit leaves — the second pass skips every entry.
pub proof fn lemma_commit_idempotent(fs: Set<Seq<char>>, entries: Seq<(Seq<char>, Seq<char>)>)
    requires
        plan_separated(fs, entries),
    ensures
        apply_plan(apply_plan(fs, entries), entries) == apply_plan(fs, entries),
{
    lemma_apply_plan_dsts_present(fs, entries);
    lemma_apply_plan_noop(apply_plan(fs, entries), entries);
}

} // verus!
