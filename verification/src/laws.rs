//! The laws of the store, proved over the ghost models that the
//! operations' contracts are stated with.

use vstd::prelude::*;

use crate::error::ErrorModel;
use crate::store::{
    empty_document, load_model, load_result_model, save_model, save_result_model, StoreModel,
};
use crate::volume::{ensure_dir_model, VolumeModel};

verus! {

/// Round trip: on a store whose storage area admits the write (no injected
/// fault), a save of `content` succeeds and leaves the store so that a
/// load returns exactly `content`.
pub proof fn lemma_save_then_load(m: StoreModel, content: Seq<char>)
    requires
        m.volume.dir_fault is None,
        m.volume.write_fault is None,
    ensures
        save_result_model(m) is Ok,
        load_result_model(save_model(m, content)) == Ok::<Seq<char>, ErrorModel>(content),
{
}

/// A load before the first save returns the empty default, never an
/// error: a missing document is the defined empty state.
pub proof fn lemma_load_before_first_save(m: StoreModel)
    requires
        m.volume.file is Absent,
        m.volume.dir_fault is None,
    ensures
        load_result_model(m) == Ok::<Seq<char>, ErrorModel>(empty_document()),
{
}

/// Saving the same text twice in sequence leaves the store exactly as one
/// save does — so a load afterwards returns the same text either way.
pub proof fn lemma_save_idempotent(m: StoreModel, content: Seq<char>)
    ensures
        save_model(save_model(m, content), content) == save_model(m, content),
        load_result_model(save_model(save_model(m, content), content)) == load_result_model(
            save_model(m, content),
        ),
{
    assert(save_model(save_model(m, content), content) =~= save_model(m, content));
}

/// A later save fully replaces the document: two saves in sequence leave
/// the store exactly as the second alone would — no merge, no append.
pub proof fn lemma_save_replaces(m: StoreModel, first: Seq<char>, second: Seq<char>)
    ensures
        save_model(save_model(m, first), second) == save_model(m, second),
{
    assert(save_model(save_model(m, first), second) =~= save_model(m, second));
}

/// A load never disturbs the store: the document stays exactly as it was,
/// and a second load returns what the first did.
pub proof fn lemma_load_stable(m: StoreModel)
    ensures
        load_model(m).volume.file == m.volume.file,
        load_result_model(load_model(m)) == load_result_model(m),
{
}

/// Directory creation is idempotent: making sure the directory exists a
/// second time changes nothing, it never touches the stored document, and
/// on a volume whose directory already exists (and admits the operation)
/// it is a no-op altogether.
pub proof fn lemma_ensure_dir_idempotent(v: VolumeModel)
    ensures
        ensure_dir_model(ensure_dir_model(v)) == ensure_dir_model(v),
        ensure_dir_model(v).file == v.file,
        v.dir_exists && v.dir_fault is None ==> ensure_dir_model(v) == v,
{
    assert(ensure_dir_model(ensure_dir_model(v)) =~= ensure_dir_model(v));
    if v.dir_exists && v.dir_fault is None {
        assert(ensure_dir_model(v) =~= v);
    }
}

} // verus!
