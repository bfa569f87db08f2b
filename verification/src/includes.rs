//! Bundled bootstrap payloads, content hashing, and the copy-on-difference
//! staging model.
//!
//! Staging never rewrites a destination file whose content already hashes to
//! the same digest as the data being staged. Preparation therefore returns a
//! plan of [`FsAction`] values; the host side carries the plan out, asking
//! [`copy_if_different`] whether each write is actually needed.

use vstd::prelude::*;
use vstd::string::*;
use crate::paths::EmuPath;

verus! {

/// The hexadecimal SHA-1 digest of a byte sequence, as the outside hash
/// implementation computes it.
pub uninterp spec fn sha1_hex_of(data: Seq<u8>) -> Seq<char>;

/// Relies on `sha1_smol::Sha1`: hashing the bytes and printing the digest
/// yields a hex string that depends on the input bytes alone.
#[verifier::external_body]
pub(crate) fn sha1_hex(data: &[u8]) -> (r: String)
    ensures
        r@ == sha1_hex_of(data@),
{
    sha1_smol::Sha1::from(data).digest().to_string()
}

/// The bytes of the bootstrap shell script for current emulator builds.
pub open spec fn bizhawk_bash_default_bytes() -> Seq<u8> {
    "#!/bin/sh\nexec mono ./EmuHawk.exe \"$@\"\n".spec_bytes()
}

/// The bootstrap shell script staged for current emulator builds.
pub fn bizhawk_bash_default() -> (r: Vec<u8>)
    ensures
        r@ == bizhawk_bash_default_bytes(),
{
    let script: &str = "#!/bin/sh\nexec mono ./EmuHawk.exe \"$@\"\n";
    script.as_bytes_vec()
}

/// The bytes of the bootstrap shell script for builds older than 2.90.
pub open spec fn bizhawk_bash_pre290_bytes() -> Seq<u8> {
    "#!/bin/sh\nexec mono ./EmuHawk.exe --mono-no-redirect \"$@\"\n".spec_bytes()
}

/// The bootstrap shell script staged for builds older than 2.90.
pub fn bizhawk_bash_pre290() -> (r: Vec<u8>)
    ensures
        r@ == bizhawk_bash_pre290_bytes(),
{
    let script: &str = "#!/bin/sh\nexec mono ./EmuHawk.exe --mono-no-redirect \"$@\"\n";
    script.as_bytes_vec()
}

/// Whether staging `data` over a destination with content `existing` must
/// write: always when the destination is missing, otherwise exactly when the
/// two content digests differ.
pub open spec fn spec_should_write(data: Seq<u8>, existing: Option<Seq<u8>>) -> bool {
    match existing {
        Option::None => true,
        Option::Some(old_bytes) => sha1_hex_of(old_bytes) != sha1_hex_of(data),
    }
}

/// The view of an optional byte slice.
pub open spec fn opt_bytes_view(existing: Option<&[u8]>) -> Option<Seq<u8>> {
    match existing {
        Option::None => Option::None,
        Option::Some(b) => Option::Some(b@),
    }
}

/// Decides the copy-on-difference policy: whether `data` must be written over
/// a destination whose current content is `existing` (`None` when the
/// destination is not a regular file).
pub fn copy_if_different(data: &[u8], existing: Option<&[u8]>) -> (write: bool)
    ensures
        write == spec_should_write(data@, opt_bytes_view(existing)),
{
    match existing {
        Option::None => true,
        Option::Some(old_bytes) => {
            let hash_new = sha1_hex(data);
            let hash_old = sha1_hex(old_bytes);
            !(hash_new == hash_old)
        },
    }
}

/// One step of file staging, to be carried out with copy-on-difference
/// semantics by the host side.
#[derive(Debug, Clone, PartialEq)]
pub enum FsAction {
    /// Create the directory (and its parents) when it does not exist yet.
    EnsureDir { dest: EmuPath },
    /// Stage the given bytes at `dest`, writing only on digest mismatch.
    WriteBytes { data: Vec<u8>, dest: EmuPath },
    /// Stage the content of the file at `src` at `dest`, writing only on
    /// digest mismatch.
    CopyFile { src: EmuPath, dest: EmuPath },
}

/// The mathematical shape of an [`FsAction`].
pub enum ActionV {
    EnsureDir { dest: Seq<char> },
    WriteBytes { data: Seq<u8>, dest: Seq<char> },
    CopyFile { src: Seq<char>, dest: Seq<char> },
}

impl View for FsAction {
    type V = ActionV;

    open spec fn view(&self) -> ActionV {
        match self {
            FsAction::EnsureDir { dest } => ActionV::EnsureDir { dest: dest@ },
            FsAction::WriteBytes { data, dest } => ActionV::WriteBytes {
                data: data@,
                dest: dest@,
            },
            FsAction::CopyFile { src, dest } => ActionV::CopyFile { src: src@, dest: dest@ },
        }
    }
}

impl DeepView for FsAction {
    type V = ActionV;

    open spec fn deep_view(&self) -> ActionV {
        self.view()
    }
}

/// Whether carrying out `a` against a filesystem whose regular files are
/// `files` (path to content) actually writes, under copy-on-difference.
pub open spec fn action_writes(files: Map<Seq<char>, Seq<u8>>, a: ActionV) -> bool {
    match a {
        ActionV::EnsureDir { .. } => false,
        ActionV::WriteBytes { data, dest } => !files.contains_key(dest) || sha1_hex_of(
            files[dest],
        ) != sha1_hex_of(data),
        ActionV::CopyFile { src, dest } => files.contains_key(src) && (!files.contains_key(dest)
            || sha1_hex_of(files[dest]) != sha1_hex_of(files[src])),
    }
}

/// The files after carrying out `a`: unchanged unless the action writes.
pub open spec fn apply_action(files: Map<Seq<char>, Seq<u8>>, a: ActionV) -> Map<
    Seq<char>,
    Seq<u8>,
> {
    if action_writes(files, a) {
        match a {
            ActionV::EnsureDir { .. } => files,
            ActionV::WriteBytes { data, dest } => files.insert(dest, data),
            ActionV::CopyFile { src, dest } => files.insert(dest, files[src]),
        }
    } else {
        files
    }
}

/// The files after carrying out a whole plan, front to back.
pub open spec fn apply_plan(files: Map<Seq<char>, Seq<u8>>, plan: Seq<ActionV>) -> Map<
    Seq<char>,
    Seq<u8>,
>
    decreases plan.len(),
{
    if plan.len() == 0 {
        files
    } else {
        apply_plan(apply_action(files, plan[0]), plan.subrange(1, plan.len() as int))
    }
}

/// The file an action stages, if it stages one.
pub open spec fn file_dest(a: ActionV) -> Option<Seq<char>> {
    match a {
        ActionV::EnsureDir { .. } => Option::None,
        ActionV::WriteBytes { dest, .. } => Option::Some(dest),
        ActionV::CopyFile { dest, .. } => Option::Some(dest),
    }
}

/// The file an action copies from, if it copies one.
pub open spec fn copy_src(a: ActionV) -> Option<Seq<char>> {
    match a {
        ActionV::CopyFile { src, .. } => Option::Some(src),
        _ => Option::None,
    }
}

/// A plan whose staged files do not interfere: no two actions stage the same
/// file, and no action copies from a file that a different action stages.
/// (An action may copy a file onto itself.)
pub open spec fn plan_wf(plan: Seq<ActionV>) -> bool {
    &&& (forall|i: int, j: int|
        0 <= i < plan.len() && 0 <= j < plan.len() && i != j ==> !(#[trigger] file_dest(plan[i])
            is Some && file_dest(plan[i]) == #[trigger] file_dest(plan[j])))
    &&& (forall|i: int, j: int|
        0 <= i < plan.len() && 0 <= j < plan.len() && i != j ==> !(#[trigger] copy_src(plan[i])
            is Some && copy_src(plan[i]) == #[trigger] file_dest(plan[j])))
}

/// A plan leaves every file it does not stage exactly as it was.
proof fn lemma_apply_plan_preserves_other_keys(
    files: Map<Seq<char>, Seq<u8>>,
    plan: Seq<ActionV>,
    key: Seq<char>,
)
    requires
        forall|i: int| 0 <= i < plan.len() ==> file_dest(#[trigger] plan[i]) != Some(key),
    ensures
        apply_plan(files, plan).contains_key(key) == files.contains_key(key),
        files.contains_key(key) ==> apply_plan(files, plan)[key] == files[key],
    decreases plan.len(),
{
    if plan.len() > 0 {
        let f1 = apply_action(files, plan[0]);
        let rest = plan.subrange(1, plan.len() as int);
        assert(file_dest(plan[0]) != Some(key));
        assert(f1.contains_key(key) == files.contains_key(key));
        assert(files.contains_key(key) ==> f1[key] == files[key]);
        assert forall|i: int| 0 <= i < rest.len() implies file_dest(#[trigger] rest[i]) != Some(
            key,
        ) by {
            assert(rest[i] == plan[i + 1]);
        }
        lemma_apply_plan_preserves_other_keys(f1, rest, key);
    }
}

/// Applying a plan is the same as applying a prefix and then the rest.
proof fn lemma_apply_plan_split(files: Map<Seq<char>, Seq<u8>>, plan: Seq<ActionV>, k: int)
    requires
        0 <= k <= plan.len(),
    ensures
        apply_plan(files, plan) == apply_plan(
            apply_plan(files, plan.subrange(0, k)),
            plan.subrange(k, plan.len() as int),
        ),
    decreases k,
{
    if k == 0 {
        assert(plan.subrange(0, 0) =~= Seq::<ActionV>::empty());
        assert(plan.subrange(0, plan.len() as int) =~= plan);
    } else {
        let f1 = apply_action(files, plan[0]);
        let rest = plan.subrange(1, plan.len() as int);
        lemma_apply_plan_split(f1, rest, k - 1);
        assert(rest.subrange(0, k - 1) =~= plan.subrange(1, k));
        assert(rest.subrange(k - 1, rest.len() as int) =~= plan.subrange(k, plan.len() as int));
        let pre = plan.subrange(0, k);
        assert(pre[0] == plan[0]);
        assert(pre.subrange(1, pre.len() as int) =~= plan.subrange(1, k));
        assert(apply_plan(files, pre) == apply_plan(f1, plan.subrange(1, k)));
    }
}

/// A plan none of whose actions would write leaves the files untouched.
proof fn lemma_apply_plan_no_writes(files: Map<Seq<char>, Seq<u8>>, plan: Seq<ActionV>)
    requires
        forall|i: int| 0 <= i < plan.len() ==> !action_writes(files, #[trigger] plan[i]),
    ensures
        apply_plan(files, plan) == files,
    decreases plan.len(),
{
    if plan.len() > 0 {
        assert(!action_writes(files, plan[0]));
        assert(apply_action(files, plan[0]) == files);
        let rest = plan.subrange(1, plan.len() as int);
        assert forall|i: int| 0 <= i < rest.len() implies !action_writes(
            files,
            #[trigger] rest[i],
        ) by {
            assert(rest[i] == plan[i + 1]);
        }
        lemma_apply_plan_no_writes(files, rest);
    }
}

/// Staging is idempotent: once a non-interfering plan has been carried out,
/// carrying it out again performs no write at all, whatever the filesystem
/// held before.
pub proof fn lemma_plan_reapply_no_writes(files: Map<Seq<char>, Seq<u8>>, plan: Seq<ActionV>)
    requires
        plan_wf(plan),
    ensures
        forall|i: int|
            0 <= i < plan.len() ==> !action_writes(apply_plan(files, plan), #[trigger] plan[i]),
        apply_plan(apply_plan(files, plan), plan) == apply_plan(files, plan),
{
    let staged = apply_plan(files, plan);
    assert forall|i: int| 0 <= i < plan.len() implies !action_writes(
        staged,
        #[trigger] plan[i],
    ) by {
        let a = plan[i];
        lemma_apply_plan_split(files, plan, i);
        let fs_i = apply_plan(files, plan.subrange(0, i));
        let tail = plan.subrange(i, plan.len() as int);
        let fs_i1 = apply_action(fs_i, a);
        let suffix = plan.subrange(i + 1, plan.len() as int);
        assert(tail[0] == a);
        assert(tail.subrange(1, tail.len() as int) =~= suffix);
        assert(staged == apply_plan(fs_i1, suffix));
        match a {
            ActionV::EnsureDir { .. } => {},
            ActionV::WriteBytes { data, dest } => {
                assert(fs_i1.contains_key(dest) && sha1_hex_of(fs_i1[dest]) == sha1_hex_of(data));
                assert forall|m: int| 0 <= m < suffix.len() implies file_dest(#[trigger] suffix[m])
                    != Some(dest) by {
                    assert(suffix[m] == plan[i + 1 + m]);
                    assert(file_dest(plan[i]) == Some(dest));
                    assert(!(file_dest(plan[i]) is Some && file_dest(plan[i]) == file_dest(
                        plan[i + 1 + m],
                    )));
                }
                lemma_apply_plan_preserves_other_keys(fs_i1, suffix, dest);
            },
            ActionV::CopyFile { src, dest } => {
                if src != dest {
                    assert forall|m: int| 0 <= m < plan.len() implies file_dest(
                        #[trigger] plan[m],
                    ) != Some(src) by {
                        if m != i {
                            assert(copy_src(plan[i]) == Some(src));
                            assert(!(copy_src(plan[i]) is Some && copy_src(plan[i]) == file_dest(
                                plan[m],
                            )));
                        } else {
                            assert(file_dest(plan[i]) == Some(dest));
                        }
                    }
                    lemma_apply_plan_preserves_other_keys(files, plan, src);
                    if files.contains_key(src) {
                        let c = files[src];
                        assert forall|m: int|
                            0 <= m < plan.subrange(0, i).len() implies file_dest(
                            #[trigger] plan.subrange(0, i)[m],
                        ) != Some(src) by {
                            assert(plan.subrange(0, i)[m] == plan[m]);
                        }
                        lemma_apply_plan_preserves_other_keys(files, plan.subrange(0, i), src);
                        assert(fs_i.contains_key(src) && fs_i[src] == c);
                        assert(fs_i1.contains_key(dest) && sha1_hex_of(fs_i1[dest]) == sha1_hex_of(
                            c,
                        ));
                        assert forall|m: int|
                            0 <= m < suffix.len() implies file_dest(#[trigger] suffix[m]) != Some(
                            dest,
                        ) by {
                            assert(suffix[m] == plan[i + 1 + m]);
                            assert(file_dest(plan[i]) == Some(dest));
                            assert(!(file_dest(plan[i]) is Some && file_dest(plan[i]) == file_dest(
                                plan[i + 1 + m],
                            )));
                        }
                        lemma_apply_plan_preserves_other_keys(fs_i1, suffix, dest);
                        assert(staged.contains_key(src) && staged[src] == c);
                    }
                }
            },
        }
    }
    lemma_apply_plan_no_writes(staged, plan);
}

} // verus!
