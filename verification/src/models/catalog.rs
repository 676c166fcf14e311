//! The models that a provider offers: the bundled ones, brought up to date by what the
//! provider tells.

use crate::models::types::{copy_infos, infos_view, ModelInfo, ModelInfoView};
use crate::text::optional;
use vstd::prelude::*;

verus! {

/// The models currently known, and the tag of the reply they came from.
#[derive(Debug, PartialEq, Eq)]
pub struct RemoteCatalog {
    pub models: Vec<ModelInfo>,
    pub etag: Option<String>,
}

/// The content of a [`RemoteCatalog`].
#[verifier::ext_equal]
pub struct RemoteCatalogView {
    pub models: Seq<ModelInfoView>,
    pub etag: Option<Seq<char>>,
}

impl View for RemoteCatalog {
    type V = RemoteCatalogView;

    open spec fn view(&self) -> RemoteCatalogView {
        RemoteCatalogView { models: infos_view(self.models@), etag: optional(self.etag) }
    }
}

/// A provider's reply as it is kept on disk.
#[derive(Debug, PartialEq, Eq)]
pub struct CachedModels {
    pub models: Vec<ModelInfo>,
    pub etag: Option<String>,
}

impl View for CachedModels {
    type V = RemoteCatalogView;

    open spec fn view(&self) -> RemoteCatalogView {
        RemoteCatalogView { models: infos_view(self.models@), etag: optional(self.etag) }
    }
}

/// The slugs of a list of models.
pub open spec fn slugs(models: Seq<ModelInfoView>) -> Seq<Seq<char>> {
    models.map_values(|model: ModelInfoView| model.slug)
}

/// The first model with the given slug, if any.
pub open spec fn model_with_slug(
    models: Seq<ModelInfoView>,
    slug: Seq<char>,
) -> Option<ModelInfoView> {
    match slugs(models).index_of_first(slug) {
        Some(index) => Some(models[index]),
        None => None,
    }
}

/// `model` in the place of the first one with its slug, or at the end if there is none.
pub open spec fn upserted(models: Seq<ModelInfoView>, model: ModelInfoView) -> Seq<ModelInfoView> {
    match slugs(models).index_of_first(model.slug) {
        Some(index) => models.update(index, model),
        None => models.push(model),
    }
}

/// All of `updates` put into the list, one after the other.
pub open spec fn updated_with(
    models: Seq<ModelInfoView>,
    updates: Seq<ModelInfoView>,
) -> Seq<ModelInfoView>
    decreases updates.len(),
{
    if updates.len() == 0 {
        models
    } else {
        upserted(updated_with(models, updates.drop_last()), updates.last())
    }
}

/// The last of `updates` with the given slug, if any.
pub open spec fn last_with_slug(
    updates: Seq<ModelInfoView>,
    slug: Seq<char>,
) -> Option<ModelInfoView>
    decreases updates.len(),
{
    if updates.len() == 0 {
        None
    } else if updates.last().slug == slug {
        Some(updates.last())
    } else {
        last_with_slug(updates.drop_last(), slug)
    }
}

/// The place of the first model with the given slug, if any.
pub fn position_of_slug(models: &Vec<ModelInfo>, slug: &String) -> (position: Option<usize>)
    ensures
        match position {
            Some(index) => slugs(infos_view(models@)).index_of_first(slug@) == Some(index as int),
            None => slugs(infos_view(models@)).index_of_first(slug@) is None,
        },
{
    let ghost known = slugs(infos_view(models@));
    proof {
        known.index_of_first_ensures(slug@);
    }
    for i in 0..models.len()
        invariant
            known == slugs(infos_view(models@)),
            forall|j: int| 0 <= j < i ==> known[j] != slug@,
            match known.index_of_first(slug@) {
                Some(index) => 0 <= index < known.len() && known[index] == slug@ && forall|j: int|
                    0 <= j < index < known.len() ==> known[j] != slug@,
                None => !known.contains(slug@),
            },
    {
        assert(known[i as int] == models@[i as int].slug@);
        if models[i].slug == *slug {
            assert(known.contains(slug@));
            return Some(i);
        }
    }
    None
}

/// The bundled models brought up to date by `models`: one already there is replaced, others
/// are appended. Earlier updates are forgotten.
pub fn merged_catalog(bundled: &Vec<ModelInfo>, models: Vec<ModelInfo>) -> (merged: Vec<ModelInfo>)
    ensures
        infos_view(merged@) == updated_with(infos_view(bundled@), infos_view(models@)),
{
    let ghost updates = infos_view(models@);
    let mut merged = copy_infos(bundled);
    assert(updates.take(0) =~= Seq::<ModelInfoView>::empty());
    for model in it: models
        invariant
            it.seq() == models@,
            updates == infos_view(models@),
            infos_view(merged@) == updated_with(infos_view(bundled@), updates.take(it.index())),
    {
        let ghost before = infos_view(merged@);
        proof {
            slugs(before).index_of_first_ensures(model.slug@);
            assert(updates.take(it.index() + 1).drop_last() =~= updates.take(it.index()));
            assert(updates.take(it.index() + 1).last() == model@);
        }
        match position_of_slug(&merged, &model.slug) {
            Some(index) => {
                merged.set(index, model);
                assert(infos_view(merged@) =~= before.update(index as int, model@));
            },
            None => {
                merged.push(model);
                assert(infos_view(merged@) =~= before.push(model@));
            },
        }
    }
    assert(updates.take(updates.len() as int) =~= updates);
    merged
}

proof fn lemma_upserted(models: Seq<ModelInfoView>, model: ModelInfoView, slug: Seq<char>)
    ensures
        model_with_slug(upserted(models, model), slug) == (if slug == model.slug {
            Some(model)
        } else {
            model_with_slug(models, slug)
        }),
        slugs(models).no_duplicates() ==> slugs(upserted(models, model)).no_duplicates(),
        upserted(models, model).len() >= models.len(),
        forall|i: int|
            0 <= i < models.len() ==> (#[trigger] upserted(models, model)[i]).slug
                == models[i].slug,
{
    let result = upserted(models, model);
    let before = slugs(models);
    let after = slugs(result);
    before.index_of_first_ensures(model.slug);
    before.index_of_first_ensures(slug);
    after.index_of_first_ensures(slug);
    match before.index_of_first(model.slug) {
        Some(index) => {
            assert(after =~= before);
        },
        None => {
            assert(after =~= before.push(model.slug));
            assert(after[before.len() as int] == model.slug);
            assert(forall|i: int| 0 <= i < before.len() ==> after[i] == before[i]);
            if before.contains(slug) {
                let at = before.index_of_first(slug).unwrap();
                assert(after[at] == slug);
            }
            if after.contains(slug) && slug != model.slug {
                let at = after.index_of_first(slug).unwrap();
                assert(before[at] == slug);
            }
            if before.no_duplicates() {
                assert forall|i: int, j: int|
                    0 <= i < after.len() && 0 <= j < after.len() && i != j implies after[i]
                    != after[j] by {
                    if i == before.len() {
                        assert(before.contains(before[j]));
                    }
                    if j == before.len() {
                        assert(before.contains(before[i]));
                    }
                }
            }
        },
    }
}

/// For every slug the list has the last update with that slug, or else what it had before.
/// So an update that is not repeated is gone, unless the model is a bundled one.
pub proof fn law_last_update_wins(
    models: Seq<ModelInfoView>,
    updates: Seq<ModelInfoView>,
    slug: Seq<char>,
)
    ensures
        model_with_slug(updated_with(models, updates), slug) == (match last_with_slug(
            updates,
            slug,
        ) {
            Some(model) => Some(model),
            None => model_with_slug(models, slug),
        }),
    decreases updates.len(),
{
    if updates.len() > 0 {
        law_last_update_wins(models, updates.drop_last(), slug);
        lemma_upserted(updated_with(models, updates.drop_last()), updates.last(), slug);
    }
}

/// Updates leave the bundled models in their places, and no slug occurs twice if none did
/// among the bundled models.
pub proof fn law_updates_keep_bundled_places(
    models: Seq<ModelInfoView>,
    updates: Seq<ModelInfoView>,
)
    ensures
        updated_with(models, updates).len() >= models.len(),
        forall|i: int|
            0 <= i < models.len() ==> (#[trigger] updated_with(models, updates)[i]).slug
                == models[i].slug,
        slugs(models).no_duplicates() ==> slugs(updated_with(models, updates)).no_duplicates(),
    decreases updates.len(),
{
    if updates.len() > 0 {
        let before = updated_with(models, updates.drop_last());
        law_updates_keep_bundled_places(models, updates.drop_last());
        lemma_upserted(before, updates.last(), updates.last().slug);
        assert forall|i: int| 0 <= i < models.len() implies (
        #[trigger] updated_with(models, updates)[i]).slug == models[i].slug by {
            assert(before[i].slug == models[i].slug);
        }
    }
}

/// A slug that is neither bundled nor among the updates is not in the list, whatever earlier
/// updates brought.
pub proof fn law_removed_models_are_dropped(
    models: Seq<ModelInfoView>,
    updates: Seq<ModelInfoView>,
    slug: Seq<char>,
)
    requires
        !slugs(models).contains(slug),
        !slugs(updates).contains(slug),
    ensures
        !slugs(updated_with(models, updates)).contains(slug),
{
    law_last_update_wins(models, updates, slug);
    lemma_last_with_slug(updates, slug);
    slugs(models).index_of_first_ensures(slug);
    slugs(updated_with(models, updates)).index_of_first_ensures(slug);
}

/// Every slug among the updates is in the list afterwards.
pub proof fn law_updates_are_taken_over(
    models: Seq<ModelInfoView>,
    updates: Seq<ModelInfoView>,
    slug: Seq<char>,
)
    requires
        slugs(updates).contains(slug),
    ensures
        slugs(updated_with(models, updates)).contains(slug),
{
    law_last_update_wins(models, updates, slug);
    lemma_some_with_slug(updates, slug);
    slugs(updated_with(models, updates)).index_of_first_ensures(slug);
}

proof fn lemma_some_with_slug(updates: Seq<ModelInfoView>, slug: Seq<char>)
    requires
        slugs(updates).contains(slug),
    ensures
        last_with_slug(updates, slug) is Some,
    decreases updates.len(),
{
    let known = slugs(updates);
    if updates.last().slug != slug {
        let i = choose|i: int| 0 <= i < known.len() && known[i] == slug;
        assert(i < updates.len() - 1);
        assert(slugs(updates.drop_last())[i] == slug);
        lemma_some_with_slug(updates.drop_last(), slug);
    }
}

proof fn lemma_last_with_slug(updates: Seq<ModelInfoView>, slug: Seq<char>)
    requires
        !slugs(updates).contains(slug),
    ensures
        last_with_slug(updates, slug) is None,
    decreases updates.len(),
{
    if updates.len() > 0 {
        let known = slugs(updates);
        assert(known[updates.len() - 1] == updates.last().slug);
        assert(slugs(updates.drop_last()) =~= known.drop_last());
        if slugs(updates.drop_last()).contains(slug) {
            let i = choose|i: int| 0 <= i < known.len() - 1 && known.drop_last()[i] == slug;
            assert(known[i] == slug);
        }
        lemma_last_with_slug(updates.drop_last(), slug);
    }
}

/// Looking a slug up finds the first model with it, and finds none only if there is none.
pub proof fn law_lookup_finds_the_first(models: Seq<ModelInfoView>, slug: Seq<char>)
    ensures
        match model_with_slug(models, slug) {
            Some(found) => found.slug == slug && exists|i: int|
                {
                    &&& 0 <= i < models.len()
                    &&& #[trigger] models[i] == found
                    &&& forall|j: int| 0 <= j < i ==> (#[trigger] models[j]).slug != slug
                },
            None => forall|i: int| 0 <= i < models.len() ==> (#[trigger] models[i]).slug != slug,
        },
{
    let known = slugs(models);
    known.index_of_first_ensures(slug);
    assert forall|i: int| 0 <= i < models.len() implies known[i] == (#[trigger] models[i]).slug by {}
    match known.index_of_first(slug) {
        Some(index) => {
            assert(models[index].slug == slug);
            assert forall|j: int| 0 <= j < index implies (#[trigger] models[j]).slug != slug by {
                assert(known[j] != slug);
            }
        },
        None => {
            assert forall|i: int| 0 <= i < models.len() implies (#[trigger] models[i]).slug
                != slug by {
                assert(known.contains(known[i]));
            }
        },
    }
}

/// One more update takes the place of the first model with its slug, or goes to the end if there
/// is none. No other place changes.
pub proof fn law_one_more_update(
    models: Seq<ModelInfoView>,
    updates: Seq<ModelInfoView>,
    update: ModelInfoView,
)
    ensures
        updated_with(models, Seq::empty()) == models,
        ({
            let before = updated_with(models, updates);
            let after = updated_with(models, updates.push(update));
            let is_new = forall|i: int|
                0 <= i < before.len() ==> (#[trigger] before[i]).slug != update.slug;
            &&& is_new ==> after == before.push(update)
            &&& !is_new ==> after.len() == before.len() && forall|i: int|
                0 <= i < before.len() ==> {
                    let is_first = before[i].slug == update.slug && forall|j: int|
                        0 <= j < i ==> (#[trigger] before[j]).slug != update.slug;
                    #[trigger] after[i] == if is_first {
                        update
                    } else {
                        before[i]
                    }
                }
        }),
{
    let before = updated_with(models, updates);
    let after = updated_with(models, updates.push(update));
    assert(updates.push(update).drop_last() =~= updates);
    let known = slugs(before);
    known.index_of_first_ensures(update.slug);
    assert forall|i: int| 0 <= i < before.len() implies known[i] == (#[trigger] before[i]).slug by {}
    match known.index_of_first(update.slug) {
        Some(index) => {
            assert(before[index].slug == update.slug);
            assert forall|i: int| 0 <= i < before.len() implies {
                let is_first = before[i].slug == update.slug && forall|j: int|
                    0 <= j < i ==> (#[trigger] before[j]).slug != update.slug;
                #[trigger] after[i] == if is_first {
                    update
                } else {
                    before[i]
                }
            } by {
                if i == index {
                    assert forall|j: int| 0 <= j < i implies (#[trigger] before[j]).slug
                        != update.slug by {
                        assert(known[j] != update.slug);
                    }
                } else if i < index {
                    assert(known[i] != update.slug);
                }
            }
        },
        None => {
            assert forall|i: int| 0 <= i < before.len() implies (#[trigger] before[i]).slug
                != update.slug by {
                assert(known.contains(known[i]));
            }
        },
    }
}

} // verus!
