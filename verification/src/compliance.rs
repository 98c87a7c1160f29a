//! Per-address compliance records and the admission check over them.
//!
//! A record carries a verification flag, an accreditation flag, a
//! jurisdiction and an expiry timestamp. The check runs under a selectable
//! mode: `Strict` demands the verification flag and an unexpired record,
//! `VerifyOnly` demands the flag alone, and `Skip` demands nothing. The
//! boundary is exact: a record with `compliance_expiry == now` still
//! passes; only `now > compliance_expiry` fails.

use crate::assoc::has_key;
use crate::assoc::keys_unique;
use crate::assoc::lemma_value_absent;
use crate::assoc::lemma_value_at_index;
use crate::assoc::lemma_value_push;
use crate::assoc::lemma_value_update;
use crate::assoc::value_of;
use crate::errors::Error;
use vstd::prelude::*;

verus! {

/// The compliance status recorded for one address.
pub struct ComplianceData {
    pub kyc_verified: bool,
    pub accredited_investor: bool,
    pub jurisdiction: String,
    pub compliance_expiry: u64,
}

impl Clone for ComplianceData {
    fn clone(&self) -> (r: Self)
        ensures
            r == *self,
    {
        ComplianceData {
            kyc_verified: self.kyc_verified,
            accredited_investor: self.accredited_investor,
            jurisdiction: self.jurisdiction.clone(),
            compliance_expiry: self.compliance_expiry,
        }
    }
}

/// Which checks an admission runs against a compliance record.
#[derive(Clone, Copy, Debug, PartialEq, Eq, Structural)]
pub enum ComplianceMode {
    /// Demand the verification flag and an unexpired record.
    Strict,
    /// Demand the verification flag; ignore the expiry.
    VerifyOnly,
    /// Demand nothing.
    Skip,
}

/// The reason `record` (the record looked up for an address, if any) is
/// not admissible at time `now` under `mode`, or `None` if it passes.
pub open spec fn admission_error(
    record: Option<ComplianceData>,
    now: u64,
    mode: ComplianceMode,
) -> Option<Error> {
    match mode {
        ComplianceMode::Skip => None,
        _ => match record {
            None => Some(Error::ComplianceMissing),
            Some(r) => if !r.kyc_verified {
                Some(Error::KycNotVerified)
            } else if mode is Strict && now > r.compliance_expiry {
                Some(Error::ComplianceExpired)
            } else {
                None
            },
        },
    }
}

/// The per-address compliance records.
pub struct ComplianceRegistry {
    pub entries: Vec<(u64, ComplianceData)>,
}

impl ComplianceRegistry {
    /// No address carries two records.
    pub open spec fn wf(self) -> bool {
        keys_unique(self.entries@)
    }

    /// The record stored for `a`, if any.
    pub open spec fn record_of(self, a: u64) -> Option<ComplianceData> {
        value_of(self.entries@, a)
    }

    /// An empty registry.
    pub fn new() -> (r: ComplianceRegistry)
        ensures
            r.wf(),
            forall|a: u64| r.record_of(a) is None,
    {
        ComplianceRegistry { entries: Vec::new() }
    }

    /// The index of the record for `a`, if one exists.
    fn find_index(&self, a: u64) -> (r: Option<usize>)
        ensures
            match r {
                Some(i) => i < self.entries.len() && self.entries@[i as int].0 == a,
                None => !has_key(self.entries@, a),
            },
    {
        let n = self.entries.len();
        let mut i: usize = 0;
        while i < n
            invariant
                n == self.entries.len(),
                i <= n,
                forall|j: int| 0 <= j < i ==> self.entries@[j].0 != a,
            decreases n - i,
        {
            if self.entries[i].0 == a {
                return Some(i);
            }
            i = i + 1;
        }
        None
    }

    /// Borrow the record stored for `a`, if any.
    pub fn get(&self, a: u64) -> (r: Option<&ComplianceData>)
        requires
            self.wf(),
        ensures
            match r {
                Some(rec) => self.record_of(a) == Some(*rec),
                None => self.record_of(a) is None,
            },
    {
        match self.find_index(a) {
            Some(i) => {
                proof {
                    lemma_value_at_index(self.entries@, i as int);
                }
                Some(&self.entries[i].1)
            }
            None => {
                proof {
                    lemma_value_absent(self.entries@, a);
                }
                None
            }
        }
    }

    /// Store `record` for `a`, overwriting any prior record wholesale.
    pub fn set_record(&mut self, a: u64, record: ComplianceData)
        requires
            old(self).wf(),
        ensures
            final(self).wf(),
            final(self).record_of(a) == Some(record),
            forall|b: u64| b != a ==> final(self).record_of(b) == old(self).record_of(b),
    {
        let ghost s0 = self.entries@;
        match self.find_index(a) {
            Some(i) => {
                proof {
                    lemma_value_update(s0, i as int, (a, record));
                }
                self.entries[i] = (a, record);
            }
            None => {
                proof {
                    lemma_value_push(s0, (a, record));
                }
                self.entries.push((a, record));
            }
        }
    }

    /// The reason `a` is not admissible at time `now` under `mode`, or
    /// `None` if it passes.
    pub fn check(&self, a: u64, now: u64, mode: ComplianceMode) -> (r: Option<Error>)
        requires
            self.wf(),
        ensures
            r == admission_error(self.record_of(a), now, mode),
    {
        match mode {
            ComplianceMode::Skip => None,
            _ => match self.get(a) {
                None => Some(Error::ComplianceMissing),
                Some(rec) => {
                    if !rec.kyc_verified {
                        Some(Error::KycNotVerified)
                    } else if matches!(mode, ComplianceMode::Strict) && now > rec.compliance_expiry {
                        Some(Error::ComplianceExpired)
                    } else {
                        None
                    }
                }
            },
        }
    }
}

} // verus!
