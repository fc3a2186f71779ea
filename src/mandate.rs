use vstd::prelude::*;

use crate::text::copy_option_text;

verus! {

/// Lifecycle state of a mandate. Revocation and expiry are status changes,
/// never removals.
#[derive(Clone, Copy, Debug, PartialEq, Eq, Structural)]
pub enum MandateStatus {
    Active,
    Inactive,
    Pending,
    Revoked,
}

/// A customer's standing authorization for a merchant to charge later
/// through one connector.
#[derive(Clone, Debug, PartialEq, Eq)]
pub struct Mandate {
    pub mandate_id: String,
    pub customer_id: String,
    pub merchant_id: String,
    pub connector_mandate_id: Option<String>,
    pub mandate_status: MandateStatus,
    pub mandate_amount: Option<i64>,
    pub mandate_currency: Option<String>,
    pub amount_captured: Option<i64>,
    pub created_at: i64,
}

/// The values of a mandate about to be inserted.
#[derive(Clone, Debug, PartialEq, Eq)]
pub struct MandateNew {
    pub mandate_id: String,
    pub customer_id: String,
    pub merchant_id: String,
    pub connector_mandate_id: Option<String>,
    pub mandate_status: MandateStatus,
    pub mandate_amount: Option<i64>,
    pub mandate_currency: Option<String>,
    pub amount_captured: Option<i64>,
    pub created_at: i64,
}

/// A patch: each present field replaces the stored one, absent ones are
/// kept. A connector mandate id only fills an absent one: once present it is
/// never replaced.
#[derive(Clone, Debug)]
pub struct MandateUpdateInternal {
    pub mandate_status: Option<MandateStatus>,
    pub connector_mandate_id: Option<String>,
    pub amount_captured: Option<i64>,
}

/// Failures of the mandate store that callers must see.
#[derive(Clone, Copy, Debug, PartialEq, Eq, Structural)]
pub enum StorageError {
    /// A point lookup or a keyed update matched no row.
    NotFound,
    /// An insert or update would break a uniqueness invariant.
    Conflict,
}

/// The record that inserting `n` stores.
pub open spec fn record_of(n: MandateNew) -> Mandate {
    Mandate {
        mandate_id: n.mandate_id,
        customer_id: n.customer_id,
        merchant_id: n.merchant_id,
        connector_mandate_id: n.connector_mandate_id,
        mandate_status: n.mandate_status,
        mandate_amount: n.mandate_amount,
        mandate_currency: n.mandate_currency,
        amount_captured: n.amount_captured,
        created_at: n.created_at,
    }
}

/// `m` with the fields present in `p` replaced; a connector mandate id that
/// `m` already holds stays as it is.
pub open spec fn patched(m: Mandate, p: MandateUpdateInternal) -> Mandate {
    Mandate {
        connector_mandate_id: match m.connector_mandate_id {
            Some(x) => Some(x),
            None => p.connector_mandate_id,
        },
        mandate_status: match p.mandate_status {
            Some(s) => s,
            None => m.mandate_status,
        },
        amount_captured: match p.amount_captured {
            Some(a) => Some(a),
            None => m.amount_captured,
        },
        ..m
    }
}

impl MandateNew {
    /// The stored record for these values.
    pub fn into_record(self) -> (r: Mandate)
        ensures
            r == record_of(self),
    {
        Mandate {
            mandate_id: self.mandate_id,
            customer_id: self.customer_id,
            merchant_id: self.merchant_id,
            connector_mandate_id: self.connector_mandate_id,
            mandate_status: self.mandate_status,
            mandate_amount: self.mandate_amount,
            mandate_currency: self.mandate_currency,
            amount_captured: self.amount_captured,
            created_at: self.created_at,
        }
    }
}

impl Mandate {
    /// A field-for-field copy.
    pub fn snapshot(&self) -> (r: Mandate)
        ensures
            r == *self,
    {
        Mandate {
            mandate_id: self.mandate_id.clone(),
            customer_id: self.customer_id.clone(),
            merchant_id: self.merchant_id.clone(),
            connector_mandate_id: copy_option_text(&self.connector_mandate_id),
            mandate_status: self.mandate_status,
            mandate_amount: self.mandate_amount,
            mandate_currency: copy_option_text(&self.mandate_currency),
            amount_captured: self.amount_captured,
            created_at: self.created_at,
        }
    }

    /// Applies a patch in place.
    pub fn apply_update(&mut self, patch: MandateUpdateInternal)
        ensures
            *final(self) == patched(*old(self), patch),
    {
        if self.connector_mandate_id.is_none() {
            self.connector_mandate_id = patch.connector_mandate_id;
        }
        match patch.mandate_status {
            Some(s) => {
                self.mandate_status = s;
            },
            None => {},
        }
        match patch.amount_captured {
            Some(a) => {
                self.amount_captured = Some(a);
            },
            None => {},
        }
    }
}

} // verus!
