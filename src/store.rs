use vstd::prelude::*;

use crate::mandate::{
    patched, record_of, Mandate, MandateNew, MandateUpdateInternal, StorageError,
};
use crate::text::{option_is_text, same_text};

verus! {

/// `m` is addressed by the merchant-visible key `(mid, id)`.
pub open spec fn mandate_key_is(m: Mandate, mid: Seq<char>, id: Seq<char>) -> bool {
    m.merchant_id@ == mid && m.mandate_id@ == id
}

/// `m` is addressed by the connector-issued key `(mid, c)`.
pub open spec fn connector_key_is(m: Mandate, mid: Seq<char>, c: Seq<char>) -> bool {
    m.merchant_id@ == mid && match m.connector_mandate_id {
        Some(x) => x@ == c,
        None => false,
    }
}

/// Two records share their `(merchant_id, mandate_id)` key.
pub open spec fn same_mandate_key(a: Mandate, b: Mandate) -> bool {
    a.merchant_id@ == b.merchant_id@ && a.mandate_id@ == b.mandate_id@
}

/// Two records share a present `(merchant_id, connector_mandate_id)` key.
pub open spec fn same_connector_key(a: Mandate, b: Mandate) -> bool {
    a.merchant_id@ == b.merchant_id@ && match (a.connector_mandate_id, b.connector_mandate_id) {
        (Some(x), Some(y)) => x@ == y@,
        _ => false,
    }
}

/// Both uniqueness invariants of the mandate table.
pub open spec fn unique_keys(rows: Seq<Mandate>) -> bool {
    forall|i: int, j: int|
        0 <= i < rows.len() && 0 <= j < rows.len() && i != j ==> !same_mandate_key(
            #[trigger] rows[i],
            #[trigger] rows[j],
        ) && !same_connector_key(rows[i], rows[j])
}

pub open spec fn has_mandate_key(rows: Seq<Mandate>, mid: Seq<char>, id: Seq<char>) -> bool {
    exists|i: int| 0 <= i < rows.len() && #[trigger] mandate_key_is(rows[i], mid, id)
}

pub open spec fn has_connector_key(rows: Seq<Mandate>, mid: Seq<char>, c: Seq<char>) -> bool {
    exists|i: int| 0 <= i < rows.len() && #[trigger] connector_key_is(rows[i], mid, c)
}

/// Two records share either key.
pub open spec fn clashes(a: Mandate, b: Mandate) -> bool {
    same_mandate_key(a, b) || same_connector_key(a, b)
}

/// Storing `m` beside `rows` would break a uniqueness invariant.
pub open spec fn insert_conflicts(rows: Seq<Mandate>, m: Mandate) -> bool {
    exists|i: int| 0 <= i < rows.len() && #[trigger] clashes(rows[i], m)
}

/// The store refuses `p` on row `i`: it names a connector mandate id other
/// than the one the row already holds, or one that another row of the same
/// merchant holds.
pub open spec fn patch_refused(rows: Seq<Mandate>, i: int, p: MandateUpdateInternal) -> bool {
    match p.connector_mandate_id {
        Some(c) => match rows[i].connector_mandate_id {
            Some(x) => x@ != c@,
            None => exists|j: int|
                0 <= j < rows.len() && j != i && #[trigger] connector_key_is(
                    rows[j],
                    rows[i].merchant_id@,
                    c@,
                ),
        },
        None => false,
    }
}

/// The rows that satisfy `f`, in primary-key order.
pub open spec fn rows_where(rows: Seq<Mandate>, f: spec_fn(Mandate) -> bool) -> Seq<Mandate>
    decreases rows.len(),
{
    if rows.len() == 0 {
        Seq::empty()
    } else if f(rows.last()) {
        rows_where(rows.drop_last(), f).push(rows.last())
    } else {
        rows_where(rows.drop_last(), f)
    }
}

/// A conjunction of exact-match constraints; an absent field constrains nothing.
#[derive(Clone, Debug)]
pub struct MandatePredicate {
    pub merchant_id: Option<String>,
    pub mandate_id: Option<String>,
    pub connector_mandate_id: Option<String>,
    pub customer_id: Option<String>,
}

pub open spec fn text_constraint(c: Option<String>, v: Seq<char>) -> bool {
    match c {
        Some(x) => x@ == v,
        None => true,
    }
}

fn text_constraint_met(c: &Option<String>, v: &String) -> (r: bool)
    ensures
        r == text_constraint(*c, v@),
{
    match c {
        Some(x) => same_text(x.as_str(), v.as_str()),
        None => true,
    }
}

impl MandatePredicate {
    pub open spec fn holds(self, m: Mandate) -> bool {
        &&& text_constraint(self.merchant_id, m.merchant_id@)
        &&& text_constraint(self.mandate_id, m.mandate_id@)
        &&& text_constraint(self.customer_id, m.customer_id@)
        &&& match self.connector_mandate_id {
            Some(c) => match m.connector_mandate_id {
                Some(x) => x@ == c@,
                None => false,
            },
            None => true,
        }
    }

    /// Whether `m` satisfies every constraint.
    pub fn accepts(&self, m: &Mandate) -> (r: bool)
        ensures
            r == self.holds(*m),
    {
        if !text_constraint_met(&self.merchant_id, &m.merchant_id) {
            return false;
        }
        if !text_constraint_met(&self.mandate_id, &m.mandate_id) {
            return false;
        }
        if !text_constraint_met(&self.customer_id, &m.customer_id) {
            return false;
        }
        match &self.connector_mandate_id {
            Some(c) => option_is_text(&m.connector_mandate_id, c.as_str()),
            None => true,
        }
    }
}

/// The mandate table: rows in primary-key (insertion) order, never removed.
pub struct MandateStore {
    rows: Vec<Mandate>,
}

impl View for MandateStore {
    type V = Seq<Mandate>;

    closed spec fn view(&self) -> Seq<Mandate> {
        self.rows@
    }
}

impl MandateStore {
    pub open spec fn wf(&self) -> bool {
        unique_keys(self@)
    }

    /// An empty table.
    pub fn new() -> (r: MandateStore)
        ensures
            r@ == Seq::<Mandate>::empty(),
            r.wf(),
    {
        MandateStore { rows: Vec::new() }
    }

    /// Number of stored rows.
    pub fn len(&self) -> (r: usize)
        ensures
            r == self@.len(),
    {
        self.rows.len()
    }

    /// The first row, in primary-key order, that satisfies `pred`.
    pub fn find_one(&self, pred: &MandatePredicate) -> (r: Result<Mandate, StorageError>)
        ensures
            match r {
                Ok(m) => exists|i: int|
                    0 <= i < self@.len() && self@[i] == m && pred.holds(m) && forall|k: int|
                        0 <= k < i ==> !pred.holds(#[trigger] self@[k]),
                Err(e) => e == StorageError::NotFound && forall|k: int|
                    0 <= k < self@.len() ==> !pred.holds(#[trigger] self@[k]),
            },
    {
        let mut i: usize = 0;
        while i < self.rows.len()
            invariant
                i <= self.rows@.len(),
                forall|k: int| 0 <= k < i ==> !pred.holds(#[trigger] self.rows@[k]),
            decreases self.rows@.len() - i,
        {
            if pred.accepts(&self.rows[i]) {
                let m = self.rows[i].snapshot();
                assert(self@[i as int] == m);
                return Ok(m);
            }
            i = i + 1;
        }
        Err(StorageError::NotFound)
    }

    /// Every row that satisfies `pred`, in primary-key order.
    pub fn filter(&self, pred: &MandatePredicate) -> (r: Vec<Mandate>)
        ensures
            r@ == rows_where(self@, |m: Mandate| pred.holds(m)),
    {
        let ghost f = |m: Mandate| pred.holds(m);
        let mut out: Vec<Mandate> = Vec::new();
        let mut i: usize = 0;
        while i < self.rows.len()
            invariant
                i <= self.rows@.len(),
                f == (|m: Mandate| pred.holds(m)),
                out@ == rows_where(self.rows@.subrange(0, i as int), f),
            decreases self.rows@.len() - i,
        {
            let ghost before = self.rows@.subrange(0, i as int);
            let ghost after = self.rows@.subrange(0, i + 1);
            assert(after.drop_last() =~= before);
            assert(after.last() == self.rows@[i as int]);
            if pred.accepts(&self.rows[i]) {
                out.push(self.rows[i].snapshot());
            }
            i = i + 1;
        }
        assert(self.rows@.subrange(0, self.rows@.len() as int) =~= self.rows@);
        out
    }

    /// Position of the row addressed by `(merchant_id, mandate_id)`.
    fn position_of_key(&self, merchant_id: &str, mandate_id: &str) -> (r: Option<usize>)
        ensures
            match r {
                Some(i) => i < self@.len() && mandate_key_is(self@[i as int], merchant_id@, mandate_id@),
                None => !has_mandate_key(self@, merchant_id@, mandate_id@),
            },
    {
        let mut i: usize = 0;
        while i < self.rows.len()
            invariant
                i <= self.rows@.len(),
                forall|k: int|
                    0 <= k < i ==> !#[trigger] mandate_key_is(self.rows@[k], merchant_id@, mandate_id@),
            decreases self.rows@.len() - i,
        {
            if same_text(self.rows[i].merchant_id.as_str(), merchant_id) && same_text(
                self.rows[i].mandate_id.as_str(),
                mandate_id,
            ) {
                return Some(i);
            }
            assert(!mandate_key_is(self.rows@[i as int], merchant_id@, mandate_id@));
            i = i + 1;
        }
        None
    }

    /// Whether a row other than `skip` holds the connector key `(merchant_id, c)`.
    fn connector_key_taken(&self, merchant_id: &str, c: &str, skip: usize) -> (r: bool)
        ensures
            r == exists|j: int|
                0 <= j < self@.len() && j != skip && #[trigger] connector_key_is(
                    self@[j],
                    merchant_id@,
                    c@,
                ),
    {
        let mut j: usize = 0;
        while j < self.rows.len()
            invariant
                j <= self.rows@.len(),
                forall|k: int|
                    0 <= k < j && k != skip ==> !#[trigger] connector_key_is(
                        self.rows@[k],
                        merchant_id@,
                        c@,
                    ),
            decreases self.rows@.len() - j,
        {
            if j != skip && same_text(self.rows[j].merchant_id.as_str(), merchant_id)
                && option_is_text(&self.rows[j].connector_mandate_id, c) {
                assert(connector_key_is(self@[j as int], merchant_id@, c@));
                return true;
            }
            assert(j == skip || !connector_key_is(self.rows@[j as int], merchant_id@, c@));
            j = j + 1;
        }
        false
    }

    /// Whether `m` clashes with a stored row on either key.
    fn conflicts_with_any(&self, m: &Mandate) -> (r: bool)
        ensures
            r == insert_conflicts(self@, *m),
    {
        let mut i: usize = 0;
        while i < self.rows.len()
            invariant
                i <= self.rows@.len(),
                forall|k: int| 0 <= k < i ==> !#[trigger] clashes(self.rows@[k], *m),
            decreases self.rows@.len() - i,
        {
            let row = &self.rows[i];
            let same_merchant = same_text(row.merchant_id.as_str(), m.merchant_id.as_str());
            let same_id = same_text(row.mandate_id.as_str(), m.mandate_id.as_str());
            let same_reference = match &m.connector_mandate_id {
                Some(c) => option_is_text(&row.connector_mandate_id, c.as_str()),
                None => false,
            };
            if same_merchant && (same_id || same_reference) {
                assert(clashes(self@[i as int], *m));
                return true;
            }
            assert(!clashes(self.rows@[i as int], *m));
            i = i + 1;
        }
        false
    }
}

impl MandateNew {
    /// Stores a new mandate, or reports `Conflict` when its
    /// `(merchant_id, mandate_id)` key, or its present
    /// `(merchant_id, connector_mandate_id)` key, is already taken.
    pub fn insert(self, store: &mut MandateStore) -> (r: Result<Mandate, StorageError>)
        requires
            old(store).wf(),
        ensures
            final(store).wf(),
            insert_conflicts(old(store)@, record_of(self)) ==> r == Err::<Mandate, StorageError>(
                StorageError::Conflict,
            ) && final(store)@ == old(store)@,
            !insert_conflicts(old(store)@, record_of(self)) ==> r == Ok::<Mandate, StorageError>(
                record_of(self),
            ) && final(store)@ == old(store)@.push(record_of(self)),
    {
        let ghost n = self;
        let record = self.into_record();
        if store.conflicts_with_any(&record) {
            return Err(StorageError::Conflict);
        }
        let copy = record.snapshot();
        proof {
            lemma_insert_then_lookup(store@, n);
        }
        store.rows.push(record);
        Ok(copy)
    }
}

impl Mandate {
    /// The mandate addressed by `(merchant_id, mandate_id)`, or `NotFound`.
    pub fn find_by_merchant_id_mandate_id(
        store: &MandateStore,
        merchant_id: &str,
        mandate_id: &str,
    ) -> (r: Result<Mandate, StorageError>)
        ensures
            r is Ok <==> has_mandate_key(store@, merchant_id@, mandate_id@),
            match r {
                Ok(m) => store@.contains(m) && mandate_key_is(m, merchant_id@, mandate_id@),
                Err(e) => e == StorageError::NotFound,
            },
    {
        let pred = MandatePredicate {
            merchant_id: Some(merchant_id.to_owned()),
            mandate_id: Some(mandate_id.to_owned()),
            connector_mandate_id: None,
            customer_id: None,
        };
        let r = store.find_one(&pred);
        proof {
            if has_mandate_key(store@, merchant_id@, mandate_id@) {
                let i = choose|i: int|
                    0 <= i < store@.len() && #[trigger] mandate_key_is(
                        store@[i],
                        merchant_id@,
                        mandate_id@,
                    );
                assert(pred.holds(store@[i]));
            }
            if r is Ok {
                let m = r->Ok_0;
                let i = choose|i: int| 0 <= i < store@.len() && store@[i] == m && pred.holds(m);
                assert(mandate_key_is(store@[i], merchant_id@, mandate_id@));
            }
        }
        r
    }

    /// The mandate addressed by `(merchant_id, connector_mandate_id)`, or `NotFound`.
    pub fn find_by_merchant_id_connector_mandate_id(
        store: &MandateStore,
        merchant_id: &str,
        connector_mandate_id: &str,
    ) -> (r: Result<Mandate, StorageError>)
        ensures
            r is Ok <==> has_connector_key(store@, merchant_id@, connector_mandate_id@),
            match r {
                Ok(m) => store@.contains(m) && connector_key_is(
                    m,
                    merchant_id@,
                    connector_mandate_id@,
                ),
                Err(e) => e == StorageError::NotFound,
            },
    {
        let pred = MandatePredicate {
            merchant_id: Some(merchant_id.to_owned()),
            mandate_id: None,
            connector_mandate_id: Some(connector_mandate_id.to_owned()),
            customer_id: None,
        };
        let r = store.find_one(&pred);
        proof {
            if has_connector_key(store@, merchant_id@, connector_mandate_id@) {
                let i = choose|i: int|
                    0 <= i < store@.len() && #[trigger] connector_key_is(
                        store@[i],
                        merchant_id@,
                        connector_mandate_id@,
                    );
                assert(pred.holds(store@[i]));
            }
            if r is Ok {
                let m = r->Ok_0;
                let i = choose|i: int| 0 <= i < store@.len() && store@[i] == m && pred.holds(m);
                assert(connector_key_is(store@[i], merchant_id@, connector_mandate_id@));
            }
        }
        r
    }

    /// All mandates of one merchant's customer, in primary-key order;
    /// empty when there are none.
    pub fn find_by_merchant_id_customer_id(
        store: &MandateStore,
        merchant_id: &str,
        customer_id: &str,
    ) -> (r: Vec<Mandate>)
        ensures
            r@ == rows_where(
                store@,
                |m: Mandate| m.merchant_id@ == merchant_id@ && m.customer_id@ == customer_id@,
            ),
    {
        let pred = MandatePredicate {
            merchant_id: Some(merchant_id.to_owned()),
            mandate_id: None,
            connector_mandate_id: None,
            customer_id: Some(customer_id.to_owned()),
        };
        let r = store.filter(&pred);
        assert((|m: Mandate| pred.holds(m)) =~= (|m: Mandate|
            m.merchant_id@ == merchant_id@ && m.customer_id@ == customer_id@));
        r
    }

    /// All mandates of a globally identified customer, in primary-key order,
    /// for deployments whose customer identity is not scoped to a merchant.
    pub fn find_by_global_customer_id(store: &MandateStore, customer_id: &str) -> (r: Vec<
        Mandate,
    >)
        ensures
            r@ == rows_where(store@, |m: Mandate| m.customer_id@ == customer_id@),
    {
        let pred = MandatePredicate {
            merchant_id: None,
            mandate_id: None,
            connector_mandate_id: None,
            customer_id: Some(customer_id.to_owned()),
        };
        let r = store.filter(&pred);
        assert((|m: Mandate| pred.holds(m)) =~= (|m: Mandate| m.customer_id@ == customer_id@));
        r
    }

    /// Applies `mandate` to the row addressed by `(merchant_id, mandate_id)`
    /// and returns the updated row. A key that matches no row gives
    /// `NotFound` and changes nothing. A patch that names a connector mandate
    /// id other than the one the row holds, or, on a row without one, an id
    /// that another row of the merchant holds, gives `Conflict` and changes
    /// nothing. A connector mandate id, once present, never changes.
    pub fn update_by_merchant_id_mandate_id(
        store: &mut MandateStore,
        merchant_id: &str,
        mandate_id: &str,
        mandate: MandateUpdateInternal,
    ) -> (r: Result<Mandate, StorageError>)
        requires
            old(store).wf(),
        ensures
            final(store).wf(),
            !has_mandate_key(old(store)@, merchant_id@, mandate_id@) ==> r == Err::<
                Mandate,
                StorageError,
            >(StorageError::NotFound) && final(store)@ == old(store)@,
            forall|i: int|
                0 <= i < old(store)@.len() && #[trigger] mandate_key_is(
                    old(store)@[i],
                    merchant_id@,
                    mandate_id@,
                ) ==> if patch_refused(old(store)@, i, mandate) {
                    r == Err::<Mandate, StorageError>(StorageError::Conflict) && final(store)@
                        == old(store)@
                } else {
                    r == Ok::<Mandate, StorageError>(patched(old(store)@[i], mandate))
                        && final(store)@ == old(store)@.update(i, patched(old(store)@[i], mandate))
                },
            forall|i: int|
                0 <= i < old(store)@.len() && #[trigger] mandate_key_is(
                    old(store)@[i],
                    merchant_id@,
                    mandate_id@,
                ) && old(store)@[i].connector_mandate_id is Some ==> final(store)@[i].connector_mandate_id
                    == old(store)@[i].connector_mandate_id,
    {
        let ghost rows = store@;
        let i = match store.position_of_key(merchant_id, mandate_id) {
            Some(i) => i,
            None => {
                return Err(StorageError::NotFound);
            },
        };
        proof {
            assert forall|k: int|
                0 <= k < rows.len() && #[trigger] mandate_key_is(
                    rows[k],
                    merchant_id@,
                    mandate_id@,
                ) implies k == i by {
                if k != i {
                    assert(same_mandate_key(rows[k], rows[i as int]));
                }
            }
        }
        match &mandate.connector_mandate_id {
            Some(c) => {
                let refused = match &store.rows[i].connector_mandate_id {
                    Some(x) => !same_text(x.as_str(), c.as_str()),
                    None => store.connector_key_taken(merchant_id, c.as_str(), i),
                };
                if refused {
                    return Err(StorageError::Conflict);
                }
            },
            None => {},
        }
        let ghost np = patched(rows[i as int], mandate);
        let mut row = store.rows[i].snapshot();
        row.apply_update(mandate);
        let out = row.snapshot();
        store.rows.set(i, row);
        proof {
            let after = store.rows@;
            assert(after == rows.update(i as int, np));
            assert forall|a: int, b: int|
                0 <= a < after.len() && 0 <= b < after.len() && a != b implies !same_mandate_key(
                #[trigger] after[a],
                #[trigger] after[b],
            ) && !same_connector_key(after[a], after[b]) by {
                assert(!same_mandate_key(rows[a], rows[b]));
                assert(!same_connector_key(rows[a], rows[b]));
                if a == i {
                    if np.connector_mandate_id != rows[a].connector_mandate_id {
                        assert(!connector_key_is(rows[b], merchant_id@, np.connector_mandate_id->0@));
                    }
                } else if b == i {
                    if np.connector_mandate_id != rows[b].connector_mandate_id {
                        assert(!connector_key_is(rows[a], merchant_id@, np.connector_mandate_id->0@));
                    }
                }
            }
        }
        Ok(out)
    }
}

/// A mandate inserted without conflict is the one record that its
/// `(merchant_id, mandate_id)` key then addresses, and the table keeps its
/// uniqueness invariants.
pub proof fn lemma_insert_then_lookup(rows: Seq<Mandate>, n: MandateNew)
    requires
        unique_keys(rows),
        !insert_conflicts(rows, record_of(n)),
    ensures
        unique_keys(rows.push(record_of(n))),
        has_mandate_key(rows.push(record_of(n)), n.merchant_id@, n.mandate_id@),
        forall|i: int|
            0 <= i < rows.len() + 1 && #[trigger] mandate_key_is(
                rows.push(record_of(n))[i],
                n.merchant_id@,
                n.mandate_id@,
            ) ==> rows.push(record_of(n))[i] == record_of(n),
{
    let m = record_of(n);
    let after = rows.push(m);
    assert(mandate_key_is(after[rows.len() as int], n.merchant_id@, n.mandate_id@));
    assert forall|i: int|
        0 <= i < after.len() && #[trigger] mandate_key_is(
            after[i],
            n.merchant_id@,
            n.mandate_id@,
        ) implies after[i] == m by {
        if i < rows.len() {
            assert(clashes(rows[i], m));
        }
    }
    assert forall|i: int, j: int|
        0 <= i < after.len() && 0 <= j < after.len() && i != j implies !same_mandate_key(
        #[trigger] after[i],
        #[trigger] after[j],
    ) && !same_connector_key(after[i], after[j]) by {
        if i == rows.len() {
            assert(!clashes(rows[j], m));
        } else if j == rows.len() {
            assert(!clashes(rows[i], m));
        } else {
            assert(after[i] == rows[i] && after[j] == rows[j]);
        }
    }
}

/// After a first mandate is stored, a second one with the same
/// `(merchant_id, mandate_id)` conflicts; the table is then left as it was,
/// so the key still addresses the first record alone.
pub proof fn lemma_duplicate_insert_conflicts(
    rows: Seq<Mandate>,
    first: MandateNew,
    second: MandateNew,
)
    requires
        unique_keys(rows),
        !insert_conflicts(rows, record_of(first)),
        second.merchant_id@ == first.merchant_id@,
        second.mandate_id@ == first.mandate_id@,
    ensures
        insert_conflicts(rows.push(record_of(first)), record_of(second)),
        forall|i: int|
            0 <= i < rows.len() + 1 && #[trigger] mandate_key_is(
                rows.push(record_of(first))[i],
                second.merchant_id@,
                second.mandate_id@,
            ) ==> rows.push(record_of(first))[i] == record_of(first),
{
    lemma_insert_then_lookup(rows, first);
    let after = rows.push(record_of(first));
    assert(clashes(after[rows.len() as int], record_of(second)));
}

/// The selection is empty exactly when no row satisfies `f`.
pub proof fn lemma_rows_where_empty(rows: Seq<Mandate>, f: spec_fn(Mandate) -> bool)
    ensures
        rows_where(rows, f).len() == 0 <==> forall|i: int| 0 <= i < rows.len() ==> !f(#[trigger] rows[i]),
    decreases rows.len(),
{
    if rows.len() > 0 {
        lemma_rows_where_empty(rows.drop_last(), f);
        if !f(rows.last()) {
            assert forall|i: int| 0 <= i < rows.len() - 1 implies #[trigger] rows[i] == rows.drop_last()[i] by {}
        }
    }
}

/// A row is selected exactly when it is stored and satisfies `f`.
pub proof fn lemma_rows_where_members(rows: Seq<Mandate>, f: spec_fn(Mandate) -> bool, m: Mandate)
    ensures
        rows_where(rows, f).contains(m) <==> rows.contains(m) && f(m),
    decreases rows.len(),
{
    if rows.len() > 0 {
        let init = rows.drop_last();
        let last = rows.last();
        lemma_rows_where_members(init, f, m);
        let r0 = rows_where(init, f);
        if rows.contains(m) {
            let i = choose|i: int| 0 <= i < rows.len() && rows[i] == m;
            if i < rows.len() - 1 {
                assert(init[i] == m);
            }
        }
        if init.contains(m) {
            let i = choose|i: int| 0 <= i < init.len() && init[i] == m;
            assert(rows[i] == m);
        }
        assert(rows[rows.len() - 1] == last);
        if f(last) {
            let r = r0.push(last);
            if r.contains(m) {
                let k = choose|k: int| 0 <= k < r.len() && r[k] == m;
                if k < r0.len() {
                    assert(r0[k] == m);
                }
            }
            if r0.contains(m) {
                let k = choose|k: int| 0 <= k < r0.len() && r0[k] == m;
                assert(r[k] == m);
            }
            assert(r[r0.len() as int] == last);
        }
    }
}

/// Selection distributes over concatenation.
pub proof fn lemma_rows_where_concat(a: Seq<Mandate>, b: Seq<Mandate>, f: spec_fn(Mandate) -> bool)
    ensures
        rows_where(a + b, f) == rows_where(a, f) + rows_where(b, f),
    decreases b.len(),
{
    if b.len() == 0 {
        assert(a + b =~= a);
        assert(rows_where(a, f) + rows_where(b, f) =~= rows_where(a, f));
    } else {
        lemma_rows_where_concat(a, b.drop_last(), f);
        assert((a + b).drop_last() =~= a + b.drop_last());
        assert((a + b).last() == b.last());
        if f(b.last()) {
            assert(rows_where(a, f) + rows_where(b.drop_last(), f).push(b.last()) =~= (rows_where(
                a,
                f,
            ) + rows_where(b.drop_last(), f)).push(b.last()));
        }
    }
}

/// Rows that do not satisfy `f`, stored before or after the others, leave
/// the selection unchanged.
pub proof fn lemma_unrelated_rows_invisible(
    a: Seq<Mandate>,
    b: Seq<Mandate>,
    f: spec_fn(Mandate) -> bool,
)
    requires
        forall|i: int| 0 <= i < b.len() ==> !f(#[trigger] b[i]),
    ensures
        rows_where(a + b, f) == rows_where(a, f),
        rows_where(b + a, f) == rows_where(a, f),
{
    lemma_rows_where_empty(b, f);
    lemma_rows_where_concat(a, b, f);
    lemma_rows_where_concat(b, a, f);
    assert(rows_where(a, f) + rows_where(b, f) =~= rows_where(a, f));
    assert(rows_where(b, f) + rows_where(a, f) =~= rows_where(a, f));
}

/// The state reached by applying `patches` one after another.
pub open spec fn apply_all(m: Mandate, patches: Seq<MandateUpdateInternal>) -> Mandate
    decreases patches.len(),
{
    if patches.len() == 0 {
        m
    } else {
        patched(apply_all(m, patches.drop_last()), patches.last())
    }
}

/// Two patches name the same fields.
pub open spec fn same_fields(p: MandateUpdateInternal, q: MandateUpdateInternal) -> bool {
    &&& (p.mandate_status is Some) == (q.mandate_status is Some)
    &&& (p.connector_mandate_id is Some) == (q.connector_mandate_id is Some)
    &&& (p.amount_captured is Some) == (q.amount_captured is Some)
}

/// Updates to one key are applied whole and one at a time. When all
/// patches name the same fields, every field of the final row comes from
/// one patch or from the original: status and captured amount from the last
/// patch applied, the connector mandate id from the first one to set it (it
/// is never replaced). Where the patches agree on the connector mandate id,
/// the final row is the original with exactly the last patch applied.
pub proof fn lemma_serialized_updates(m: Mandate, patches: Seq<MandateUpdateInternal>)
    requires
        patches.len() > 0,
        forall|k: int| 0 <= k < patches.len() ==> same_fields(#[trigger] patches[k], patches.last()),
    ensures
        apply_all(m, patches).mandate_status == patched(m, patches.last()).mandate_status,
        apply_all(m, patches).amount_captured == patched(m, patches.last()).amount_captured,
        apply_all(m, patches).connector_mandate_id == patched(m, patches[0]).connector_mandate_id,
        (forall|k: int|
            0 <= k < patches.len() ==> (#[trigger] patches[k]).connector_mandate_id
                == patches.last().connector_mandate_id) ==> apply_all(m, patches) == patched(
            m,
            patches.last(),
        ),
    decreases patches.len(),
{
    lemma_apply_all_keeps_identity(m, patches);
    assert(same_fields(patches[patches.len() - 1], patches.last()));
    if patches.len() > 1 {
        let init = patches.drop_last();
        assert(same_fields(patches[patches.len() - 2], patches.last()));
        assert forall|k: int| 0 <= k < init.len() implies same_fields(
            #[trigger] init[k],
            init.last(),
        ) by {
            assert(same_fields(patches[k], patches.last()));
        }
        lemma_serialized_updates(m, init);
        assert(init[0] == patches[0]);
    }
    if forall|k: int|
        0 <= k < patches.len() ==> (#[trigger] patches[k]).connector_mandate_id
            == patches.last().connector_mandate_id {
        assert(patches[0].connector_mandate_id == patches.last().connector_mandate_id);
    }
}

/// Patches never change the fields that they do not name.
pub proof fn lemma_apply_all_keeps_identity(m: Mandate, patches: Seq<MandateUpdateInternal>)
    ensures
        apply_all(m, patches).mandate_id == m.mandate_id,
        apply_all(m, patches).customer_id == m.customer_id,
        apply_all(m, patches).merchant_id == m.merchant_id,
        apply_all(m, patches).mandate_amount == m.mandate_amount,
        apply_all(m, patches).mandate_currency == m.mandate_currency,
        apply_all(m, patches).created_at == m.created_at,
    decreases patches.len(),
{
    if patches.len() > 0 {
        lemma_apply_all_keeps_identity(m, patches.drop_last());
    }
}

} // verus!
