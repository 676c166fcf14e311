//! The order in which models are listed: by priority, and otherwise as they came.

use crate::models::types::{infos_view, ModelInfo, ModelInfoView};
use vstd::prelude::*;

verus! {

/// Where a model of the given priority goes in a sorted list: behind all that come before it or
/// are its equals.
pub open spec fn place(models: Seq<ModelInfoView>, priority: i32) -> int
    decreases models.len(),
{
    if models.len() == 0 || models.last().priority <= priority {
        models.len() as int
    } else {
        place(models.drop_last(), priority)
    }
}

/// The models by rising priority; those of the same priority keep their order.
pub open spec fn sorted_by_priority(models: Seq<ModelInfoView>) -> Seq<ModelInfoView>
    decreases models.len(),
{
    if models.len() == 0 {
        Seq::empty()
    } else {
        let sorted = sorted_by_priority(models.drop_last());
        sorted.insert(place(sorted, models.last().priority), models.last())
    }
}

/// No model stands behind one of a higher priority number.
pub open spec fn is_sorted(models: Seq<ModelInfoView>) -> bool {
    forall|i: int, j: int|
        0 <= i <= j < models.len() ==> (#[trigger] models[i]).priority <= (
        #[trigger] models[j]).priority
}

/// The models of one priority, in their order.
pub open spec fn of_priority(models: Seq<ModelInfoView>, priority: i32) -> Seq<ModelInfoView> {
    models.filter(|model: ModelInfoView| model.priority == priority)
}

proof fn lemma_place(models: Seq<ModelInfoView>, priority: i32)
    requires
        is_sorted(models),
    ensures
        0 <= place(models, priority) <= models.len(),
        forall|i: int|
            0 <= i < place(models, priority) ==> (#[trigger] models[i]).priority <= priority,
        forall|i: int|
            place(models, priority) <= i < models.len() ==> (#[trigger] models[i]).priority
                > priority,
    decreases models.len(),
{
    if models.len() > 0 && models.last().priority > priority {
        let shorter = models.drop_last();
        assert(forall|i: int| 0 <= i < shorter.len() ==> models[i] == shorter[i]);
        lemma_place(shorter, priority);
    }
}

proof fn lemma_insert_sorted(sorted: Seq<ModelInfoView>, model: ModelInfoView)
    requires
        is_sorted(sorted),
    ensures
        is_sorted(sorted.insert(place(sorted, model.priority), model)),
{
    lemma_place(sorted, model.priority);
    let at = place(sorted, model.priority);
    let result = sorted.insert(at, model);
    assert forall|i: int, j: int| 0 <= i <= j < result.len() implies (
    #[trigger] result[i]).priority <= (#[trigger] result[j]).priority by {
        assert(i < at ==> result[i] == sorted[i]);
        assert(i > at ==> result[i] == sorted[i - 1]);
        assert(j < at ==> result[j] == sorted[j]);
        assert(j > at ==> result[j] == sorted[j - 1]);
    }
}

proof fn lemma_insert_keeps_order(sorted: Seq<ModelInfoView>, model: ModelInfoView, priority: i32)
    requires
        is_sorted(sorted),
    ensures
        of_priority(sorted.insert(place(sorted, model.priority), model), priority) == (
        if model.priority == priority {
            of_priority(sorted, priority).push(model)
        } else {
            of_priority(sorted, priority)
        }),
    decreases sorted.len(),
{
    lemma_place(sorted, model.priority);
    let at = place(sorted, model.priority);
    let result = sorted.insert(at, model);
    reveal(Seq::filter);
    if at == sorted.len() {
        assert(result.drop_last() =~= sorted);
        assert(result.last() == model);
    } else {
        let shorter = sorted.drop_last();
        assert(forall|i: int| 0 <= i < shorter.len() ==> sorted[i] == shorter[i]);
        assert(at == place(shorter, model.priority));
        assert(result.drop_last() =~= shorter.insert(at, model));
        assert(result.last() == sorted.last());
        lemma_insert_keeps_order(shorter, model, priority);
        if sorted.last().priority == priority {
            assert(model.priority != priority);
        }
    }
}

/// The models come by rising priority, and those of the same priority are the same ones in
/// the same order as before.
pub proof fn law_sorting_is_stable(models: Seq<ModelInfoView>, priority: i32)
    ensures
        is_sorted(sorted_by_priority(models)),
        sorted_by_priority(models).len() == models.len(),
        of_priority(sorted_by_priority(models), priority) == of_priority(models, priority),
    decreases models.len(),
{
    reveal(Seq::filter);
    if models.len() > 0 {
        law_sorting_is_stable(models.drop_last(), priority);
        let sorted = sorted_by_priority(models.drop_last());
        lemma_place(sorted, models.last().priority);
        lemma_insert_sorted(sorted, models.last());
        lemma_insert_keeps_order(sorted, models.last(), priority);
    }
}

/// Sorting a sorted list changes nothing.
pub proof fn law_sorting_keeps_a_sorted_list(models: Seq<ModelInfoView>)
    requires
        is_sorted(models),
    ensures
        sorted_by_priority(models) == models,
    decreases models.len(),
{
    if models.len() > 0 {
        let shorter = models.drop_last();
        assert(forall|i: int| 0 <= i < shorter.len() ==> models[i] == shorter[i]);
        law_sorting_keeps_a_sorted_list(shorter);
        assert(shorter.len() > 0 ==> shorter.last() == models[models.len() - 2]);
        assert(place(shorter, models.last().priority) == shorter.len());
        assert(shorter.insert(shorter.len() as int, models.last()) =~= models);
    } else {
        assert(sorted_by_priority(models) =~= models);
    }
}

/// Sorts models by rising priority; those of the same priority keep their order.
pub fn sort_by_priority(models: Vec<ModelInfo>) -> (sorted: Vec<ModelInfo>)
    ensures
        infos_view(sorted@) == sorted_by_priority(infos_view(models@)),
{
    let ghost views = infos_view(models@);
    let mut sorted: Vec<ModelInfo> = Vec::new();
    assert(infos_view(sorted@) =~= sorted_by_priority(views.take(0)));
    for model in it: models
        invariant
            it.seq() == models@,
            views == infos_view(models@),
            infos_view(sorted@) == sorted_by_priority(views.take(it.index())),
    {
        let ghost done = infos_view(sorted@);
        proof {
            law_sorting_is_stable(views.take(it.index()), 0);
            lemma_place(done, model.priority);
        }
        let mut at: usize = sorted.len();
        assert(done.take(at as int) =~= done);
        while at > 0 && sorted[at - 1].priority > model.priority
            invariant
                at <= sorted.len(),
                done == infos_view(sorted@),
                place(done, model.priority) == place(done.take(at as int), model.priority),
            decreases at,
        {
            assert(done.take(at as int).drop_last() =~= done.take(at - 1));
            assert(done.take(at as int).last() == sorted@[at - 1]@);
            at = at - 1;
        }
        assert(at > 0 ==> done.take(at as int).last() == sorted@[at - 1]@);
        assert(at == place(done, model.priority));
        sorted.insert(at, model);
        proof {
            assert(views.take(it.index() + 1).drop_last() =~= views.take(it.index()));
            assert(views.take(it.index() + 1).last() == model@);
            assert(infos_view(sorted@) =~= done.insert(at as int, model@));
        }
    }
    assert(views.take(views.len() as int) =~= views);
    sorted
}

/// Stated without further notions: along the sorted list the priority never falls, every model
/// is there as often as before, and of two models with the same priority the one that came
/// first comes first.
pub proof fn law_sorted_list_in_full(models: Seq<ModelInfoView>)
    ensures
        forall|i: int, j: int|
            0 <= i < j < models.len() ==> (#[trigger] sorted_by_priority(models)[i]).priority <= (
            #[trigger] sorted_by_priority(models)[j]).priority,
        sorted_by_priority(models).to_multiset() == models.to_multiset(),
        forall|priority: i32|
            sorted_by_priority(models).filter(
                #[trigger] with_priority(priority),
            ) == models.filter(with_priority(priority)),
    decreases models.len(),
{
    law_sorting_is_stable(models, 0);
    assert forall|priority: i32|
        sorted_by_priority(models).filter(
            #[trigger] with_priority(priority),
        ) == models.filter(with_priority(priority)) by {
        law_sorting_is_stable(models, priority);
        assert(of_priority(sorted_by_priority(models), priority)
            =~= sorted_by_priority(models).filter(with_priority(priority)));
        assert(of_priority(models, priority) =~= models.filter(with_priority(priority)));
    }
    if models.len() > 0 {
        let shorter = models.drop_last();
        law_sorted_list_in_full(shorter);
        let sorted = sorted_by_priority(shorter);
        law_sorting_is_stable(shorter, 0);
        let at = place(sorted, models.last().priority);
        lemma_place(sorted, models.last().priority);
        sorted.insert_ensures(at, models.last());
        broadcast use vstd::seq_lib::group_to_multiset_ensures;

        assert(models =~= shorter.push(models.last()));
        vstd::seq_lib::to_multiset_insert(sorted, at, models.last());
    } else {
        assert(sorted_by_priority(models) =~= models);
    }
}

/// Tells whether a model has the priority.
pub open spec fn with_priority(priority: i32) -> spec_fn(ModelInfoView) -> bool {
    |model: ModelInfoView| model.priority == priority
}

} // verus!
