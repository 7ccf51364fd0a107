//! Write arguments: a mapping from datasource field names to `(field, value)`
//! pairs, with result injection and auto-managed timestamp refresh.

use vstd::prelude::*;
use vstd::pervasive::VecAdditionalExecFns;

use crate::model::{Field, FieldView, Model, PrismaValue, SelectionResult, ValueView};

verus! {

/// One binding of a datasource field name to a field descriptor and a value.
#[derive(Debug, PartialEq)]
pub struct ArgEntry {
    pub key: String,
    pub field: Field,
    pub value: PrismaValue,
}

/// The write arguments of a mutation node. Keys are unique per datasource
/// field name; the abstract content is a map from key to `(field, value)`.
#[derive(Debug, PartialEq)]
pub struct WriteArgs {
    pub entries: Vec<ArgEntry>,
}

/// The map described by a sequence of entries; a later entry wins over an
/// earlier one with the same key.
pub open spec fn args_map_of(s: Seq<ArgEntry>) -> Map<Seq<char>, (FieldView, ValueView)>
    decreases s.len(),
{
    if s.len() == 0 {
        Map::empty()
    } else {
        args_map_of(s.drop_last()).insert(s.last().key@, (s.last().field@, s.last().value@))
    }
}

impl View for WriteArgs {
    type V = Map<Seq<char>, (FieldView, ValueView)>;

    open spec fn view(&self) -> Map<Seq<char>, (FieldView, ValueView)> {
        args_map_of(self.entries@)
    }
}

/// The map after inserting every `(field, value)` pair in order, each under
/// its field's datasource name.
pub open spec fn inject_pairs(
    m: Map<Seq<char>, (FieldView, ValueView)>,
    pairs: Seq<(FieldView, ValueView)>,
) -> Map<Seq<char>, (FieldView, ValueView)>
    decreases pairs.len(),
{
    if pairs.len() == 0 {
        m
    } else {
        inject_pairs(m.insert(pairs.first().0.db_name, pairs.first()), pairs.drop_first())
    }
}

/// The map after refreshing the auto-managed timestamp fields of a model:
/// every `is_updated_at` field not already bound is bound to `DateTime(t)`.
pub open spec fn refresh_map(
    m: Map<Seq<char>, (FieldView, ValueView)>,
    fields: Seq<FieldView>,
    t: int,
) -> Map<Seq<char>, (FieldView, ValueView)>
    decreases fields.len(),
{
    if fields.len() == 0 {
        m
    } else {
        let f = fields.first();
        let m2 = if f.is_updated_at && !m.contains_key(f.db_name) {
            m.insert(f.db_name, (f, ValueView::DateTime(t)))
        } else {
            m
        };
        refresh_map(m2, fields.drop_first(), t)
    }
}

proof fn lemma_args_map_contains(s: Seq<ArgEntry>, k: Seq<char>)
    ensures
        args_map_of(s).contains_key(k) <==> exists|i: int| 0 <= i < s.len() && s[i].key@ == k,
    decreases s.len(),
{
    if s.len() > 0 {
        lemma_args_map_contains(s.drop_last(), k);
        if s.last().key@ == k {
            assert(s[s.len() - 1].key@ == k);
        } else {
            if args_map_of(s).contains_key(k) {
                let i = choose|i: int| 0 <= i < s.drop_last().len() && s.drop_last()[i].key@ == k;
                assert(s[i].key@ == k);
            }
            if exists|i: int| 0 <= i < s.len() && s[i].key@ == k {
                let i = choose|i: int| 0 <= i < s.len() && s[i].key@ == k;
                assert(s.drop_last()[i].key@ == k);
            }
        }
    }
}

proof fn lemma_args_map_index(s: Seq<ArgEntry>, i: int)
    requires
        0 <= i < s.len(),
        forall|j: int| i < j < s.len() ==> s[j].key@ != s[i].key@,
    ensures
        args_map_of(s).contains_key(s[i].key@),
        args_map_of(s)[s[i].key@] == (s[i].field@, s[i].value@),
    decreases s.len(),
{
    if i == s.len() - 1 {
    } else {
        assert(forall|j: int| i < j < s.drop_last().len() ==> s.drop_last()[j].key@ != s.drop_last()[i].key@);
        lemma_args_map_index(s.drop_last(), i);
        assert(s.last().key@ != s[i].key@);
    }
}

proof fn lemma_args_map_update(s: Seq<ArgEntry>, i: int, e: ArgEntry)
    requires
        0 <= i < s.len(),
        e.key@ == s[i].key@,
        forall|p: int, q: int| 0 <= p < q < s.len() ==> s[p].key@ != s[q].key@,
    ensures
        args_map_of(s.update(i, e)) == args_map_of(s).insert(e.key@, (e.field@, e.value@)),
    decreases s.len(),
{
    let su = s.update(i, e);
    if i == s.len() - 1 {
        assert(su.drop_last() =~= s.drop_last());
        assert(su.last() == e);
        assert(args_map_of(s.drop_last()).insert(e.key@, (e.field@, e.value@))
            =~= args_map_of(s).insert(e.key@, (e.field@, e.value@)));
    } else {
        assert(su.drop_last() =~= s.drop_last().update(i, e));
        assert(su.last() == s.last());
        lemma_args_map_update(s.drop_last(), i, e);
        assert(s.last().key@ != e.key@);
        assert(args_map_of(s.drop_last()).insert(e.key@, (e.field@, e.value@)).insert(
            s.last().key@,
            (s.last().field@, s.last().value@),
        ) =~= args_map_of(s).insert(e.key@, (e.field@, e.value@)));
    }
}

/// Relies on std::time::SystemTime::now for the wall-clock time in
/// milliseconds; the value depends on the clock, so nothing is promised of it.
#[verifier::external_body]
fn now_millis() -> u64 {
    std::time::SystemTime::now()
        .duration_since(std::time::UNIX_EPOCH)
        .map(|d| d.as_millis() as u64)
        .unwrap_or(0)
}

impl WriteArgs {
    /// Keys are unique per datasource field name.
    pub open spec fn wf(&self) -> bool {
        forall|p: int, q: int|
            0 <= p < q < self.entries@.len() ==> self.entries@[p].key@ != self.entries@[q].key@
    }

    /// An empty set of write arguments.
    pub fn new() -> (r: WriteArgs)
        ensures
            r.wf(),
            r@ == Map::<Seq<char>, (FieldView, ValueView)>::empty(),
            r.entries@.len() == 0,
    {
        WriteArgs { entries: Vec::new() }
    }

    /// How many datasource field names are bound.
    pub fn len(&self) -> (r: usize)
        ensures
            r == self.entries@.len(),
    {
        self.entries.len()
    }

    fn position_of(&self, key: &String) -> (r: Option<usize>)
        ensures
            match r {
                Some(i) => i < self.entries@.len() && self.entries@[i as int].key@ == key@,
                None => forall|j: int| 0 <= j < self.entries@.len() ==> self.entries@[j].key@ != key@,
            },
    {
        let mut i: usize = 0;
        while i < self.entries.len()
            invariant
                i <= self.entries.len(),
                forall|j: int| 0 <= j < i ==> self.entries@[j].key@ != key@,
            decreases self.entries.len() - i,
        {
            if self.entries[i].key == *key {
                return Some(i);
            }
            i += 1;
        }
        None
    }

    /// Whether the given datasource field name is bound.
    pub fn contains_key(&self, key: &String) -> (r: bool)
        ensures
            r == self@.contains_key(key@),
    {
        proof {
            lemma_args_map_contains(self.entries@, key@);
        }
        self.position_of(key).is_some()
    }

    /// The entry bound to the given datasource field name, if any.
    pub fn get(&self, key: &String) -> (r: Option<&ArgEntry>)
        requires
            self.wf(),
        ensures
            match r {
                Some(e) => self@.contains_key(key@) && e.key@ == key@ && self@[key@] == (
                    e.field@,
                    e.value@,
                ),
                None => !self@.contains_key(key@),
            },
    {
        proof {
            lemma_args_map_contains(self.entries@, key@);
        }
        match self.position_of(key) {
            Some(i) => {
                proof {
                    lemma_args_map_index(self.entries@, i as int);
                }
                Some(&self.entries[i])
            },
            None => None,
        }
    }

    /// Binds `key` to `(field, value)`, replacing any earlier binding.
    pub fn insert(&mut self, key: String, field: Field, value: PrismaValue)
        requires
            old(self).wf(),
        ensures
            final(self).wf(),
            final(self)@ == old(self)@.insert(key@, (field@, value@)),
    {
        let entry = ArgEntry { key, field, value };
        match self.position_of(&entry.key) {
            Some(i) => {
                proof {
                    lemma_args_map_update(self.entries@, i as int, entry);
                }
                self.entries.set(i, entry);
            },
            None => {
                proof {
                    assert(self.entries@.push(entry).drop_last() =~= self.entries@);
                }
                self.entries.push(entry);
            },
        }
    }

    /// Writes the contents of a selection result into these arguments: every
    /// `(field, value)` pair is bound under the field's datasource name, in
    /// order.
    pub fn inject(&mut self, result: &SelectionResult)
        requires
            old(self).wf(),
        ensures
            final(self).wf(),
            final(self)@ == inject_pairs(old(self)@, result@),
    {
        let ghost m0 = self@;
        proof {
            assert(result@.skip(0) =~= result@);
        }
        let mut i: usize = 0;
        while i < result.pairs.len()
            invariant
                i <= result.pairs.len(),
                self.wf(),
                inject_pairs(m0, result@) == inject_pairs(self@, result@.skip(i as int)),
            decreases result.pairs.len() - i,
        {
            let (f, v) = &result.pairs[i];
            proof {
                let rest = result@.skip(i as int);
                assert(rest.first() == result@[i as int]);
                assert(rest.drop_first() =~= result@.skip(i as int + 1));
            }
            let key = f.db_name.clone();
            self.insert(key, f.clone(), v.clone());
            i += 1;
        }
        proof {
            assert(result@.skip(result.pairs@.len() as int).len() == 0);
        }
    }

    /// Refreshes the model's auto-managed timestamp fields: every
    /// `is_updated_at` field of the model not already bound is bound to the
    /// current time.
    pub fn update_datetimes(&mut self, model: &Model)
        requires
            old(self).wf(),
        ensures
            final(self).wf(),
            exists|t: int| final(self)@ == refresh_map(old(self)@, model@.fields, t),
    {
        let t = now_millis();
        let ghost m0 = self@;
        proof {
            assert(model@.fields.skip(0) =~= model@.fields);
        }
        let mut i: usize = 0;
        while i < model.fields.len()
            invariant
                i <= model.fields.len(),
                self.wf(),
                refresh_map(m0, model@.fields, t as int) == refresh_map(
                    self@,
                    model@.fields.skip(i as int),
                    t as int,
                ),
            decreases model.fields.len() - i,
        {
            let f = &model.fields[i];
            proof {
                let rest = model@.fields.skip(i as int);
                assert(rest.first() == model@.fields[i as int]);
                assert(rest.drop_first() =~= model@.fields.skip(i as int + 1));
                assert(model@.fields[i as int] == model.fields@[i as int]@);
            }
            if f.is_updated_at {
                if !self.contains_key(&f.db_name) {
                    let key = f.db_name.clone();
                    self.insert(key, f.clone(), PrismaValue::DateTime(t));
                }
            }
            i += 1;
        }
        proof {
            assert(model@.fields.skip(model.fields@.len() as int).len() == 0);
            assert(refresh_map(m0, model@.fields, t as int) == self@);
        }
    }
}

/// Injection leaves a key untouched when no injected pair binds it.
pub proof fn lemma_inject_pairs_preserves(
    m: Map<Seq<char>, (FieldView, ValueView)>,
    pairs: Seq<(FieldView, ValueView)>,
    k: Seq<char>,
)
    requires
        forall|j: int| 0 <= j < pairs.len() ==> (#[trigger] pairs[j].0).db_name != k,
    ensures
        inject_pairs(m, pairs).contains_key(k) == m.contains_key(k),
        m.contains_key(k) ==> inject_pairs(m, pairs)[k] == m[k],
    decreases pairs.len(),
{
    if pairs.len() > 0 {
        assert(pairs.first() == pairs[0]);
        let m2 = m.insert(pairs.first().0.db_name, pairs.first());
        assert(forall|j: int|
            0 <= j < pairs.drop_first().len() ==> (#[trigger] pairs.drop_first()[j].0).db_name
                != k);
        lemma_inject_pairs_preserves(m2, pairs.drop_first(), k);
    }
}

/// Each injected pair ends up readable under its field's datasource name,
/// provided no later pair binds the same name.
pub proof fn lemma_inject_pairs_present(
    m: Map<Seq<char>, (FieldView, ValueView)>,
    pairs: Seq<(FieldView, ValueView)>,
    i: int,
)
    requires
        0 <= i < pairs.len(),
        forall|j: int| i < j < pairs.len() ==> (#[trigger] pairs[j].0).db_name != pairs[i].0.db_name,
    ensures
        inject_pairs(m, pairs).contains_key(pairs[i].0.db_name),
        inject_pairs(m, pairs)[pairs[i].0.db_name] == pairs[i],
    decreases pairs.len(),
{
    assert(pairs.first() == pairs[0]);
    let m2 = m.insert(pairs.first().0.db_name, pairs.first());
    if i == 0 {
        assert(forall|j: int|
            0 <= j < pairs.drop_first().len() ==> (#[trigger] pairs.drop_first()[j].0).db_name
                != pairs[0].0.db_name);
        lemma_inject_pairs_preserves(m2, pairs.drop_first(), pairs[0].0.db_name);
    } else {
        assert(forall|j: int|
            i - 1 < j < pairs.drop_first().len() ==> (#[trigger] pairs.drop_first()[j].0).db_name
                != pairs.drop_first()[i - 1].0.db_name);
        lemma_inject_pairs_present(m2, pairs.drop_first(), i - 1);
        assert(pairs.drop_first()[i - 1] == pairs[i]);
    }
}

/// The timestamp refresh leaves every existing binding unchanged.
pub proof fn lemma_refresh_preserves(
    m: Map<Seq<char>, (FieldView, ValueView)>,
    fields: Seq<FieldView>,
    t: int,
    k: Seq<char>,
)
    requires
        m.contains_key(k),
    ensures
        refresh_map(m, fields, t).contains_key(k),
        refresh_map(m, fields, t)[k] == m[k],
    decreases fields.len(),
{
    if fields.len() > 0 {
        let f = fields.first();
        let m2 = if f.is_updated_at && !m.contains_key(f.db_name) {
            m.insert(f.db_name, (f, ValueView::DateTime(t)))
        } else {
            m
        };
        lemma_refresh_preserves(m2, fields.drop_first(), t, k);
    }
}

/// After the refresh, every auto-managed timestamp field of the model is
/// bound.
pub proof fn lemma_refresh_covers(
    m: Map<Seq<char>, (FieldView, ValueView)>,
    fields: Seq<FieldView>,
    t: int,
    i: int,
)
    requires
        0 <= i < fields.len(),
        fields[i].is_updated_at,
    ensures
        refresh_map(m, fields, t).contains_key(fields[i].db_name),
    decreases fields.len(),
{
    let f = fields.first();
    let m2 = if f.is_updated_at && !m.contains_key(f.db_name) {
        m.insert(f.db_name, (f, ValueView::DateTime(t)))
    } else {
        m
    };
    if i == 0 {
        assert(fields.first() == fields[0]);
        assert(m2.contains_key(fields[0].db_name));
        lemma_refresh_preserves(m2, fields.drop_first(), t, fields[0].db_name);
    } else {
        lemma_refresh_covers(m2, fields.drop_first(), t, i - 1);
        assert(fields.drop_first()[i - 1] == fields[i]);
    }
}

/// After a result is injected and the timestamps are refreshed, every
/// injected pair with a datasource name no later pair reuses is readable
/// under that name, and every auto-managed timestamp field of the model is
/// bound.
pub proof fn lemma_injected_result_readable(
    m: Map<Seq<char>, (FieldView, ValueView)>,
    pairs: Seq<(FieldView, ValueView)>,
    fields: Seq<FieldView>,
    t: int,
)
    ensures
        forall|i: int|
            0 <= i < pairs.len() && (forall|j: int|
                i < j < pairs.len() ==> (#[trigger] pairs[j].0).db_name != pairs[i].0.db_name)
                ==> refresh_map(inject_pairs(m, pairs), fields, t).contains_key(
                (#[trigger] pairs[i].0).db_name,
            ) && refresh_map(inject_pairs(m, pairs), fields, t)[pairs[i].0.db_name] == pairs[i],
        forall|i: int|
            0 <= i < fields.len() && (#[trigger] fields[i]).is_updated_at ==> refresh_map(
                inject_pairs(m, pairs),
                fields,
                t,
            ).contains_key(fields[i].db_name),
{
    assert forall|i: int|
        0 <= i < pairs.len() && (forall|j: int|
            i < j < pairs.len() ==> (#[trigger] pairs[j].0).db_name != pairs[i].0.db_name)
        implies refresh_map(inject_pairs(m, pairs), fields, t).contains_key(
        (#[trigger] pairs[i].0).db_name,
    ) && refresh_map(inject_pairs(m, pairs), fields, t)[pairs[i].0.db_name] == pairs[i] by {
        lemma_inject_pairs_present(m, pairs, i);
        lemma_refresh_preserves(inject_pairs(m, pairs), fields, t, pairs[i].0.db_name);
    }
    assert forall|i: int|
        0 <= i < fields.len() && (#[trigger] fields[i]).is_updated_at implies refresh_map(
        inject_pairs(m, pairs),
        fields,
        t,
    ).contains_key(fields[i].db_name) by {
        lemma_refresh_covers(inject_pairs(m, pairs), fields, t, i);
    }
}

} // verus!
