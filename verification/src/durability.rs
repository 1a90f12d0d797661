//! What a save does to the files on disk, and what a reader can see of it.
//!
//! The file system is taken as a map from paths to contents. Each action of a
//! save changes it in one step: a write touches nothing but the file it
//! writes, forcing to storage changes no contents, and a replace either
//! moves the whole file or does nothing. On that footing the laws below hold
//! of every way a save can go, whichever actions fail.

use vstd::prelude::*;
use crate::path::{lemma_temp_sibling_differs, temp_sibling};
use crate::savable::{advanced, begun, next_step, SaveStage, SaveView, Step, StoreError};

verus! {

/// The files on disk: the contents of each path that names a file.
pub type Files = Map<Seq<char>, Seq<u8>>;

/// What a reader that opens `path` finds: the file's bytes, or no file.
pub open spec fn content(files: Files, path: Seq<char>) -> Option<Seq<u8>> {
    if files.dom().contains(path) {
        Some(files[path])
    } else {
        None
    }
}

/// What loading the store at `path` gives, with `decode` as the format.
pub open spec fn loaded<T>(
    files: Files,
    path: Seq<char>,
    decode: spec_fn(Seq<u8>) -> Option<T>,
) -> Result<T, StoreError> {
    match content(files, path) {
        None => Err(StoreError::NotFound),
        Some(bytes) => match decode(bytes) {
            Some(value) => Ok(value),
            None => Err(StoreError::Corrupt),
        },
    }
}

/// Whether `after` can be on disk once `step` was performed on `before` and
/// reported `succeeded`.
///
/// A write that succeeds leaves its bytes at its path; one that fails leaves
/// anything there, or nothing. Either way no other file changes. Forcing to
/// storage changes no contents. A replace that succeeds moves the file; one
/// that fails changes nothing.
pub open spec fn performed(before: Files, step: Step, succeeded: bool, after: Files) -> bool {
    match step {
        Step::WriteTemp { path, bytes } => if succeeded {
            after == before.insert(path, bytes)
        } else {
            after.remove(path) == before.remove(path)
        },
        Step::SyncTemp { path } => after == before,
        Step::Replace { from, to } => if succeeded {
            before.dom().contains(from) && after == before.remove(from).insert(to, before[from])
        } else {
            after == before
        },
        Step::Finish { result } => after == before,
    }
}

/// The save once one action after the other was performed with `outcomes`.
pub open spec fn after_outcomes(save: SaveView, outcomes: Seq<bool>) -> SaveView
    decreases outcomes.len(),
{
    if outcomes.len() == 0 {
        save
    } else {
        advanced(after_outcomes(save, outcomes.drop_last()), outcomes.last())
    }
}

/// Whether `files` is what was on disk in the course of `save`: `files[0]`
/// before anything was done, and `files[i + 1]` once action `i` was performed
/// with the outcome `outcomes[i]`.
pub open spec fn is_execution(save: SaveView, outcomes: Seq<bool>, files: Seq<Files>) -> bool {
    &&& files.len() == outcomes.len() + 1
    &&& forall|i: int|
        0 <= i < outcomes.len() ==> performed(
            files[i],
            next_step(after_outcomes(save, outcomes.take(i))),
            outcomes[i],
            #[trigger] files[i + 1],
        )
}

/// What holds of the disk at every stage of a save that began on `before`:
/// the target is untouched until the save is done, and the temporary file is
/// complete from the moment it is written until it is moved.
spec fn stage_holds(save: SaveView, before: Files, now: Files) -> bool {
    &&& save.temp != save.target
    &&& save.stage == SaveStage::Saved ==> content(now, save.target) == Some(save.bytes)
    &&& save.stage != SaveStage::Saved ==> content(now, save.target) == content(
        before,
        save.target,
    )
    &&& save.stage == SaveStage::SyncTemp || save.stage == SaveStage::Replace ==> content(
        now,
        save.temp,
    ) == Some(save.bytes)
}

proof fn lemma_step_keeps_stage(save: SaveView, before: Files, now: Files, succeeded: bool, next: Files)
    requires
        stage_holds(save, before, now),
        performed(now, next_step(save), succeeded, next),
    ensures
        stage_holds(advanced(save, succeeded), before, next),
{
    match save.stage {
        SaveStage::WriteTemp => {
            if !succeeded {
                assert(next.remove(save.temp).dom().contains(save.target) == now.remove(
                    save.temp,
                ).dom().contains(save.target));
                assert(next.remove(save.temp)[save.target] == now.remove(save.temp)[save.target]);
            }
        },
        _ => {},
    }
}

proof fn lemma_after_outcomes_keeps_paths(save: SaveView, outcomes: Seq<bool>)
    ensures
        after_outcomes(save, outcomes).target == save.target,
        after_outcomes(save, outcomes).temp == save.temp,
        after_outcomes(save, outcomes).bytes == save.bytes,
    decreases outcomes.len(),
{
    if outcomes.len() > 0 {
        lemma_after_outcomes_keeps_paths(save, outcomes.drop_last());
    }
}

proof fn lemma_execution_holds(save: SaveView, outcomes: Seq<bool>, files: Seq<Files>, i: int)
    requires
        is_execution(save, outcomes, files),
        stage_holds(save, files[0], files[0]),
        0 <= i <= outcomes.len(),
    ensures
        stage_holds(after_outcomes(save, outcomes.take(i)), files[0], files[i]),
    decreases i,
{
    if i > 0 {
        lemma_execution_holds(save, outcomes, files, i - 1);
        let earlier = after_outcomes(save, outcomes.take(i - 1));
        assert(outcomes.take(i).drop_last() =~= outcomes.take(i - 1));
        assert(performed(files[i - 1], next_step(earlier), outcomes[i - 1], files[i - 1 + 1]));
        lemma_step_keeps_stage(earlier, files[0], files[i - 1], outcomes[i - 1], files[i]);
    }
}

proof fn lemma_begun_holds(target: Seq<char>, encoded: Option<Seq<u8>>, files: Files)
    ensures
        stage_holds(begun(target, encoded), files, files),
{
    lemma_temp_sibling_differs(target);
}

/// Atomicity. Whenever a reader opens the target in the course of a save, it
/// finds what was there before the save or the whole of the new bytes, and
/// nothing else.
pub proof fn lemma_reader_sees_old_or_new(
    target: Seq<char>,
    encoded: Option<Seq<u8>>,
    outcomes: Seq<bool>,
    files: Seq<Files>,
    i: int,
)
    requires
        is_execution(begun(target, encoded), outcomes, files),
        0 <= i < files.len(),
    ensures
        content(files[i], target) == content(files[0], target) || (encoded matches Some(bytes)
            && content(files[i], target) == Some(bytes)),
{
    let save = begun(target, encoded);
    lemma_begun_holds(target, encoded, files[0]);
    lemma_execution_holds(save, outcomes, files, i);
    lemma_after_outcomes_keeps_paths(save, outcomes.take(i));
    lemma_unencoded_never_saves(target, outcomes.take(i));
}

/// The file of a store is never seen half written. If the target held a
/// value or nothing before a save, and the save writes a value, then whenever
/// a reader opens the target in the course of the save it finds a value or
/// nothing: loading it never fails for corruption.
pub proof fn lemma_target_stays_loadable<T>(
    target: Seq<char>,
    encoded: Option<Seq<u8>>,
    outcomes: Seq<bool>,
    files: Seq<Files>,
    i: int,
    decode: spec_fn(Seq<u8>) -> Option<T>,
)
    requires
        is_execution(begun(target, encoded), outcomes, files),
        0 <= i < files.len(),
        encoded matches Some(bytes) ==> decode(bytes) is Some,
        loaded(files[0], target, decode) != Err::<T, StoreError>(StoreError::Corrupt),
    ensures
        loaded(files[i], target, decode) != Err::<T, StoreError>(StoreError::Corrupt),
{
    lemma_reader_sees_old_or_new(target, encoded, outcomes, files, i);
}

/// A save that could not encode its value performs nothing and never
/// succeeds.
pub proof fn lemma_unencoded_never_saves(target: Seq<char>, outcomes: Seq<bool>)
    ensures
        after_outcomes(begun(target, None), outcomes).stage == SaveStage::Failed,
    decreases outcomes.len(),
{
    if outcomes.len() > 0 {
        lemma_unencoded_never_saves(target, outcomes.drop_last());
    }
}

/// Crash safety. As long as the replace has not been performed, and so also
/// when the process stops between the write and the replace, loading the
/// target gives what it gave before the save began. The temporary file, left
/// behind or not, plays no part in it.
pub proof fn lemma_unfinished_save_loads_as_before<T>(
    target: Seq<char>,
    encoded: Option<Seq<u8>>,
    outcomes: Seq<bool>,
    files: Seq<Files>,
    i: int,
    decode: spec_fn(Seq<u8>) -> Option<T>,
)
    requires
        is_execution(begun(target, encoded), outcomes, files),
        0 <= i < files.len(),
        after_outcomes(begun(target, encoded), outcomes.take(i)).stage != SaveStage::Saved,
    ensures
        content(files[i], target) == content(files[0], target),
        loaded(files[i], target, decode) == loaded(files[0], target, decode),
{
    let save = begun(target, encoded);
    lemma_begun_holds(target, encoded, files[0]);
    lemma_execution_holds(save, outcomes, files, i);
    lemma_after_outcomes_keeps_paths(save, outcomes.take(i));
}

/// No corruption on failure. When a save ends in failure, at whatever stage,
/// loading the target gives what it gave before the save was tried.
pub proof fn lemma_failed_save_loads_as_before<T>(
    target: Seq<char>,
    encoded: Option<Seq<u8>>,
    outcomes: Seq<bool>,
    files: Seq<Files>,
    decode: spec_fn(Seq<u8>) -> Option<T>,
)
    requires
        is_execution(begun(target, encoded), outcomes, files),
        next_step(after_outcomes(begun(target, encoded), outcomes)) == (Step::Finish {
            result: Err(StoreError::WriteFailure),
        }),
    ensures
        content(files.last(), target) == content(files[0], target),
        loaded(files.last(), target, decode) == loaded(files[0], target, decode),
{
    assert(outcomes.take(outcomes.len() as int) =~= outcomes);
    lemma_unfinished_save_loads_as_before(
        target,
        encoded,
        outcomes,
        files,
        outcomes.len() as int,
        decode,
    );
}

/// Round trip. When a save of `value` ends in success, loading the target
/// gives `value` back, for every format that reads what it writes.
pub proof fn lemma_saved_value_loads<T>(
    target: Seq<char>,
    value: T,
    encode: spec_fn(T) -> Option<Seq<u8>>,
    decode: spec_fn(Seq<u8>) -> Option<T>,
    outcomes: Seq<bool>,
    files: Seq<Files>,
)
    requires
        encode(value) matches Some(bytes) ==> decode(bytes) == Some(value),
        is_execution(begun(target, encode(value)), outcomes, files),
        next_step(after_outcomes(begun(target, encode(value)), outcomes)) == (Step::Finish {
            result: Ok(()),
        }),
    ensures
        encode(value) is Some,
        content(files.last(), target) == encode(value),
        loaded(files.last(), target, decode) == Ok::<T, StoreError>(value),
{
    let save = begun(target, encode(value));
    assert(outcomes.take(outcomes.len() as int) =~= outcomes);
    lemma_begun_holds(target, encode(value), files[0]);
    lemma_execution_holds(save, outcomes, files, outcomes.len() as int);
    lemma_after_outcomes_keeps_paths(save, outcomes);
    if encode(value) is None {
        lemma_unencoded_never_saves(target, outcomes);
    }
}

/// The actions of a save come in one order. The write is the first thing
/// named. Forcing to storage is named once the write has succeeded, and the
/// replace once both have: nothing is moved over the target that is not
/// written in full and durable. The save has succeeded once all three have.
pub proof fn lemma_stages_in_order(target: Seq<char>, bytes: Seq<u8>, outcomes: Seq<bool>)
    ensures
        ({
            let stage = after_outcomes(begun(target, Some(bytes)), outcomes).stage;
            &&& stage == SaveStage::WriteTemp <==> outcomes.len() == 0
            &&& stage == SaveStage::SyncTemp <==> outcomes == seq![true]
            &&& stage == SaveStage::Replace <==> outcomes == seq![true, true]
            &&& stage == SaveStage::Saved <==> outcomes.len() >= 3 && outcomes.take(3) == seq![
                true,
                true,
                true,
            ]
        }),
    decreases outcomes.len(),
{
    if outcomes.len() > 0 {
        let earlier = outcomes.drop_last();
        lemma_stages_in_order(target, bytes, earlier);
        if outcomes.len() == 1 {
            assert(outcomes == seq![true] <==> outcomes.last()) by {
                if outcomes.last() {
                    assert(outcomes =~= seq![true]);
                }
                if outcomes == seq![true] {
                    assert(seq![true].last());
                }
            }
        } else if outcomes.len() == 2 {
            assert(outcomes == seq![true, true] <==> earlier == seq![true] && outcomes.last()) by {
                if earlier == seq![true] && outcomes.last() {
                    assert(outcomes =~= seq![true, true]);
                }
                if outcomes == seq![true, true] {
                    assert(earlier =~= seq![true]);
                }
            }
        } else if outcomes.len() == 3 {
            assert(outcomes.take(3) =~= outcomes);
            assert(outcomes == seq![true, true, true] <==> earlier == seq![true, true]
                && outcomes.last()) by {
                if earlier == seq![true, true] && outcomes.last() {
                    assert(outcomes =~= seq![true, true, true]);
                }
                if outcomes == seq![true, true, true] {
                    assert(earlier =~= seq![true, true]);
                }
            }
        } else {
            assert(outcomes.take(3) =~= earlier.take(3));
        }
    }
}

} // verus!
