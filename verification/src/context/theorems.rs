//! What holds of every compiled model.

use vstd::prelude::*;
use crate::context::index::{
    accessor_taken,
    composite_errors,
    conflict_in,
    declaration_errors,
    duplicate_errors,
    duplicate_errors_upto,
    index_errors,
    name_taken,
    resolved_indexes,
    spec_indexes,
    IndexSpec,
};
use crate::context::key::{
    errors_of,
    is_key_field,
    key_fields,
    spec_composite_key,
    spec_key,
    spec_single_key,
    KeySpec,
};
use crate::context::model::{model_result_view, spec_compile, ModelContext};
use crate::error::{ValidationError, ValidationErrorView};
use crate::model::{missing_fields, missing_in, Model};
use crate::model_field::ModelField;

verus! {

/// Where a field is flagged as key, the list of key fields is not empty.
pub proof fn lemma_key_field_counts(fields: Seq<ModelField>, i: int)
    requires
        0 <= i < fields.len(),
        fields[i].spec_is_key(),
    ensures
        key_fields(fields).len() >= 1,
    decreases fields.len(),
{
    let rest = fields.drop_last();
    assert(fields =~= rest.push(fields.last()));
    rest.lemma_filter_push(fields.last(), is_key_field());
    if i < fields.len() - 1 {
        lemma_key_field_counts(rest, i);
    }
}

/// Where two fields are flagged as key, the list of key fields has two
/// entries at least.
pub proof fn lemma_two_key_fields_count(fields: Seq<ModelField>, i: int, j: int)
    requires
        0 <= i < j < fields.len(),
        fields[i].spec_is_key(),
        fields[j].spec_is_key(),
    ensures
        key_fields(fields).len() >= 2,
    decreases fields.len(),
{
    let rest = fields.drop_last();
    assert(fields =~= rest.push(fields.last()));
    rest.lemma_filter_push(fields.last(), is_key_field());
    if j < fields.len() - 1 {
        lemma_two_key_fields_count(rest, i, j);
    } else {
        lemma_key_field_counts(rest, i);
    }
}

/// A key that cannot be resolved comes with one error at least.
pub proof fn lemma_key_errors_nonempty(model: Model)
    ensures
        spec_key(model) is Err ==> spec_key(model)->Err_0.len() > 0,
{
    let composite = spec_composite_key(model);
    let single = spec_single_key(model.fields@);
    if composite is Err {
        assert(errors_of(composite).len() > 0);
    }
    if single is Err {
        assert(errors_of(single).len() > 0);
    }
}

/// Compiling a model gives one compiled model with exactly one key, or a
/// list of errors that is not empty.
///
/// A compiled model has the key that the declaration resolves to and comes
/// only where no declaration of the model has an error.
pub proof fn lemma_compile_one_key_or_errors(model: Model)
    ensures
        match spec_compile(model) {
            Ok(context) => spec_key(model) == Ok::<KeySpec, Seq<ValidationErrorView>>(context.key)
                && index_errors(model).len() == 0 && context.indexes == resolved_indexes(model),
            Err(errors) => errors.len() > 0,
        },
{
    lemma_key_errors_nonempty(model);
}

/// A model with two fields that are both flagged as key does not compile:
/// among its errors is the one of several key fields.
pub proof fn lemma_two_keys_rejected(model: Model, i: int, j: int)
    requires
        0 <= i < j < model.fields@.len(),
        model.fields@[i].spec_is_key(),
        model.fields@[j].spec_is_key(),
    ensures
        spec_compile(model) is Err,
        spec_compile(model)->Err_0.contains(ValidationErrorView::MultipleFieldKeys),
        spec_key(model) is Err,
{
    lemma_two_key_fields_count(model.fields@, i, j);
    let composite = spec_composite_key(model);
    let single = spec_single_key(model.fields@);
    assert(single == Err::<Option<KeySpec>, Seq<ValidationErrorView>>(
        seq![ValidationErrorView::MultipleFieldKeys],
    ));
    let key_errors = errors_of(spec_key(model));
    assert(key_errors == errors_of(composite) + errors_of(single));
    let at = errors_of(composite).len() as int;
    assert(key_errors[at] == ValidationErrorView::MultipleFieldKeys);
    let all = spec_compile(model)->Err_0;
    assert(all == key_errors + errors_of(spec_indexes(model)));
    assert(all[at] == ValidationErrorView::MultipleFieldKeys);
}

/// A model that declares a composite key and flags a field as key as well
/// does not compile.
pub proof fn lemma_composite_and_field_key_rejected(model: Model, i: int)
    requires
        model.key is Some,
        0 <= i < model.fields@.len(),
        model.fields@[i].spec_is_key(),
    ensures
        spec_key(model) is Err,
        spec_compile(model) is Err,
        missing_fields(model.fields@, model.key->Some_0@).len() == 0 && key_fields(
            model.fields@,
        ).len() == 1 ==> spec_key(model)->Err_0 == seq![
            ValidationErrorView::CompositeAndFieldKey,
        ],
{
    lemma_key_field_counts(model.fields@, i);
}

/// A key resolves exactly where the model declares one key in one way: a
/// composite key whose fields all exist and no key field, which gives a
/// composite key; or no composite key and one key field, which gives a
/// single key.
pub proof fn lemma_key_resolves_one_way(model: Model)
    ensures
        spec_key(model) is Ok <==> (model.key is Some && missing_fields(
            model.fields@,
            model.key->Some_0@,
        ).len() == 0 && key_fields(model.fields@).len() == 0) || (model.key is None
            && key_fields(model.fields@).len() == 1),
        spec_key(model) is Ok && model.key is Some ==> spec_key(model)->Ok_0 is Composite,
        spec_key(model) is Ok && model.key is None ==> spec_key(model)->Ok_0 is Single,
{
}

/// Compiling one declaration twice gives the same result, every derived
/// name included, character for character.
pub proof fn lemma_compile_deterministic(
    model: Model,
    first: Result<ModelContext, Vec<ValidationError>>,
    second: Result<ModelContext, Vec<ValidationError>>,
)
    requires
        model_result_view(first) == spec_compile(model),
        model_result_view(second) == spec_compile(model),
    ensures
        model_result_view(first) == model_result_view(second),
        first is Ok ==> second is Ok && first->Ok_0@.indexes == second->Ok_0@.indexes
            && first->Ok_0@.name == second->Ok_0@.name,
{
}

/// Where the first `n` indexes of a list give no error of a name used twice,
/// none of them has the storage name or the accessor of an earlier one.
pub proof fn lemma_no_duplicates_upto(indexes: Seq<IndexSpec>, n: int)
    requires
        0 <= n <= indexes.len(),
        duplicate_errors_upto(indexes, n).len() == 0,
    ensures
        forall|k: int| 0 <= k < n ==> !name_taken(indexes, k) && !accessor_taken(indexes, k),
    decreases n,
{
    if n > 0 {
        lemma_no_duplicates_upto(indexes, n - 1);
    }
}

/// The indexes of a compiled model have storage names that differ from each
/// other, and accessors that differ from each other.
pub proof fn lemma_index_names_unique(model: Model, i: int, j: int)
    requires
        spec_indexes(model) is Ok,
        0 <= i < j < spec_indexes(model)->Ok_0.len(),
    ensures
        spec_indexes(model)->Ok_0[i].index_name != spec_indexes(model)->Ok_0[j].index_name,
        spec_indexes(model)->Ok_0[i].by_fn_ident != spec_indexes(model)->Ok_0[j].by_fn_ident,
{
    let indexes = resolved_indexes(model);
    assert(duplicate_errors(indexes).len() == 0);
    lemma_no_duplicates_upto(indexes, indexes.len() as int);
    assert(!name_taken(indexes, j));
    assert(!accessor_taken(indexes, j));
}

/// For an error: whether it is the error of conflicting index flags.
pub open spec fn is_conflict_error() -> spec_fn(ValidationErrorView) -> bool {
    |e: ValidationErrorView| e is ConflictingIndex
}

/// For a field: whether it carries more than one index flag.
pub open spec fn is_conflicting_field() -> spec_fn(ModelField) -> bool {
    |f: ModelField| f.spec_has_conflict()
}

/// The fields that carry more than one index flag, in declaration order.
pub open spec fn conflicting_fields(fields: Seq<ModelField>) -> Seq<ModelField> {
    fields.filter(is_conflicting_field())
}

/// One error of conflicting index flags for each field of a list.
pub open spec fn conflict_errors_for(fields: Seq<ModelField>) -> Seq<ValidationErrorView> {
    fields.map_values(|f: ModelField| ValidationErrorView::ConflictingIndex { field: f.ident@ })
}

/// All errors of a model: those of its key, then those of its indexes.
pub open spec fn all_errors(model: Model) -> Seq<ValidationErrorView> {
    errors_of(spec_key(model)) + index_errors(model)
}

/// Filtering keeps nothing of a list in which no entry passes.
pub proof fn lemma_filter_none<A>(s: Seq<A>, pred: spec_fn(A) -> bool)
    requires
        forall|i: int| 0 <= i < s.len() ==> !pred(#[trigger] s[i]),
    ensures
        s.filter(pred) =~= Seq::<A>::empty(),
    decreases s.len(),
{
    reveal(Seq::filter);
    if s.len() > 0 {
        lemma_filter_none(s.drop_last(), pred);
    }
}

/// Filtering keeps all of a list in which every entry passes.
pub proof fn lemma_filter_all<A>(s: Seq<A>, pred: spec_fn(A) -> bool)
    requires
        forall|i: int| 0 <= i < s.len() ==> pred(#[trigger] s[i]),
    ensures
        s.filter(pred) =~= s,
    decreases s.len(),
{
    reveal(Seq::filter);
    if s.len() > 0 {
        lemma_filter_all(s.drop_last(), pred);
    }
}

/// The errors of names that no field has are all of that kind.
pub proof fn lemma_missing_kind(fields: Seq<ModelField>, names: Seq<String>)
    ensures
        forall|k: int|
            0 <= k < missing_fields(fields, names).len() ==> (#[trigger] missing_fields(
                fields,
                names,
            )[k]) is FieldNotFound,
    decreases names.len(),
{
    if names.len() > 0 {
        lemma_missing_kind(fields, names.drop_last());
        assert(missing_fields(fields, names) == names.filter_map(missing_in(fields)));
    }
}

/// The errors of model-level index declarations are all of names that no
/// field has.
pub proof fn lemma_composite_errors_kind(model: Model, metas: Seq<crate::ModelIndexMeta>)
    ensures
        forall|k: int|
            0 <= k < composite_errors(model, metas).len() ==> (#[trigger] composite_errors(
                model,
                metas,
            )[k]) is FieldNotFound,
    decreases metas.len(),
{
    if metas.len() > 0 {
        lemma_composite_errors_kind(model, metas.drop_last());
        lemma_missing_kind(model.fields@, metas.last().fields@);
    }
}

/// The errors of names used twice are none of conflicting index flags.
pub proof fn lemma_duplicate_errors_kind(indexes: Seq<IndexSpec>, n: int)
    ensures
        forall|k: int|
            0 <= k < duplicate_errors_upto(indexes, n).len() ==> !((
            #[trigger] duplicate_errors_upto(indexes, n)[k]) is ConflictingIndex),
    decreases n,
{
    if n > 0 {
        lemma_duplicate_errors_kind(indexes, n - 1);
    }
}

/// The errors of conflicting index flags are one for each field that
/// carries more than one flag, in declaration order.
pub proof fn lemma_conflicts_per_field(fields: Seq<ModelField>)
    ensures
        fields.filter_map(conflict_in()) == conflict_errors_for(conflicting_fields(fields)),
        fields.filter_map(conflict_in()).len() == conflicting_fields(fields).len(),
    decreases fields.len(),
{
    reveal(Seq::filter);
    if fields.len() > 0 {
        lemma_conflicts_per_field(fields.drop_last());
        assert(fields.filter_map(conflict_in()) =~= conflict_errors_for(
            conflicting_fields(fields),
        ));
    } else {
        assert(fields.filter_map(conflict_in()) =~= conflict_errors_for(
            conflicting_fields(fields),
        ));
    }
}

/// The errors of a key hold none of conflicting index flags.
pub proof fn lemma_key_errors_hold_no_conflict(model: Model)
    ensures
        errors_of(spec_key(model)).filter(is_conflict_error()) == Seq::<
            ValidationErrorView,
        >::empty(),
{
    let pred = is_conflict_error();
    let key_errors = errors_of(spec_key(model));
    let composite = spec_composite_key(model);
    if model.key is Some {
        lemma_missing_kind(model.fields@, model.key->Some_0@);
    }
    assert forall|k: int| 0 <= k < key_errors.len() implies !pred(#[trigger] key_errors[k]) by {
        if composite is Err && k < errors_of(composite).len() {
            assert(key_errors[k] == missing_fields(model.fields@, model.key->Some_0@)[k]);
        }
    }
    lemma_filter_none(key_errors, pred);
}

/// The errors of a list of model-level index declarations hold none of
/// conflicting index flags.
pub proof fn lemma_composite_errors_hold_no_conflict(
    model: Model,
    metas: Seq<crate::ModelIndexMeta>,
)
    ensures
        composite_errors(model, metas).filter(is_conflict_error()) == Seq::<
            ValidationErrorView,
        >::empty(),
{
    lemma_composite_errors_kind(model, metas);
    lemma_filter_none(composite_errors(model, metas), is_conflict_error());
}

/// The errors of names used twice hold none of conflicting index flags.
pub proof fn lemma_duplicate_errors_hold_no_conflict(indexes: Seq<IndexSpec>)
    ensures
        duplicate_errors(indexes).filter(is_conflict_error()) == Seq::<
            ValidationErrorView,
        >::empty(),
{
    lemma_duplicate_errors_kind(indexes, indexes.len() as int);
    lemma_filter_none(duplicate_errors(indexes), is_conflict_error());
}

/// The errors of the fields' index flags are all of conflicting flags.
pub proof fn lemma_field_errors_are_conflicts(fields: Seq<ModelField>)
    ensures
        fields.filter_map(conflict_in()).filter(is_conflict_error()) == fields.filter_map(
            conflict_in(),
        ),
{
    let conflicts = fields.filter_map(conflict_in());
    lemma_conflicts_per_field(fields);
    assert forall|k: int| 0 <= k < conflicts.len() implies is_conflict_error()(
        #[trigger] conflicts[k],
    ) by {
        assert(conflicts[k] == conflict_errors_for(conflicting_fields(fields))[k]);
    }
    lemma_filter_all(conflicts, is_conflict_error());
}

/// Among the errors of the index declarations, those of conflicting flags
/// are the errors of the fields' index flags.
pub proof fn lemma_declaration_conflicts(model: Model)
    ensures
        declaration_errors(model).filter(is_conflict_error()) == model.fields@.filter_map(
            conflict_in(),
        ),
{
    let pred = is_conflict_error();
    let conflicts = model.fields@.filter_map(conflict_in());
    let m1 = composite_errors(model, model.index@);
    let m2 = composite_errors(model, model.unique@);
    let m3 = composite_errors(model, model.multi_entry@);
    lemma_field_errors_are_conflicts(model.fields@);
    lemma_composite_errors_hold_no_conflict(model, model.index@);
    lemma_composite_errors_hold_no_conflict(model, model.unique@);
    lemma_composite_errors_hold_no_conflict(model, model.multi_entry@);
    Seq::filter_distributes_over_add(conflicts, m1, pred);
    Seq::filter_distributes_over_add(conflicts + m1, m2, pred);
    Seq::filter_distributes_over_add(conflicts + m1 + m2, m3, pred);
    assert((conflicts + m1).filter(pred) =~= conflicts);
    assert((conflicts + m1 + m2).filter(pred) =~= conflicts);
    assert((conflicts + m1 + m2 + m3).filter(pred) =~= conflicts);
}

/// A field with more than one of the three index flags makes compilation
/// fail, and the errors hold exactly one error of conflicting flags for
/// each such field, in declaration order, beside whatever else is wrong.
pub proof fn lemma_one_conflict_error_per_field(model: Model)
    ensures
        errors_of(spec_compile(model)) == all_errors(model),
        all_errors(model).filter(is_conflict_error()) == conflict_errors_for(
            conflicting_fields(model.fields@),
        ),
        all_errors(model).filter(is_conflict_error()).len() == conflicting_fields(
            model.fields@,
        ).len(),
        conflicting_fields(model.fields@).len() > 0 ==> spec_compile(model) is Err,
{
    let pred = is_conflict_error();
    let key_errors = errors_of(spec_key(model));
    let conflicts = model.fields@.filter_map(conflict_in());
    let dup = duplicate_errors(resolved_indexes(model));

    assert(errors_of(spec_indexes(model)) =~= index_errors(model));
    assert(errors_of(spec_compile(model)) =~= all_errors(model));

    lemma_key_errors_hold_no_conflict(model);
    lemma_declaration_conflicts(model);
    lemma_duplicate_errors_hold_no_conflict(resolved_indexes(model));
    lemma_conflicts_per_field(model.fields@);

    Seq::filter_distributes_over_add(declaration_errors(model), dup, pred);
    assert(index_errors(model).filter(pred) =~= conflicts);
    Seq::filter_distributes_over_add(key_errors, index_errors(model), pred);
    assert(all_errors(model).filter(pred) =~= conflicts);
}

} // verus!
