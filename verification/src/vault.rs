//! The patient consent registry: patient profiles, consent records, an
//! append-only access log, and a running statistics aggregate.
//!
//! The registry state is a value of [`PatientConsentVault`]; the host keeps it
//! in its durable store and replays every public operation against it. Each
//! mutating operation takes the authenticated invoking principal and the
//! current ledger timestamp as plain arguments, validates every precondition
//! before any write, and either applies the whole transition or returns a
//! [`VaultError`] leaving the state untouched.

use std::collections::HashMap;
use vstd::prelude::*;

use crate::Address;

verus! {

broadcast use vstd::std_specs::hash::group_hash_axioms;

/// A failed precondition of a consent-registry operation. A failure aborts
/// the call; no partial state change is ever observable.
#[derive(Clone, Copy, Debug, PartialEq, Eq, Structural)]
pub enum VaultError {
    /// A profile already exists for the patient being registered.
    AlreadyRegistered,
    /// The patient granting a consent has no profile yet.
    NotRegistered,
    /// No consent record exists under the given id.
    NotFound,
    /// The invoking principal does not match the required address, or the
    /// caller does not own the record it tries to change.
    Unauthorized,
    /// The consent is not in the `Active` status.
    NotActive,
    /// The current time lies past the consent's expiry date.
    Expired,
    /// The requested purpose matches neither the consent's purpose nor the
    /// `Other` wildcard.
    PurposeMismatch,
}

/// Lifecycle status of a consent record.
#[derive(Clone, Copy, Debug, PartialEq, Eq, Structural)]
pub enum ConsentStatus {
    Active,
    Revoked,
    Expired,
}

/// The purpose a provider may access data for. `Other` acts as a wildcard:
/// a consent granted for `Other` admits any requested purpose.
#[derive(Clone, Copy, Debug, PartialEq, Eq, Structural)]
pub enum AccessPurpose {
    Treatment,
    Research,
    Billing,
    Emergency,
    Other,
}

/// Key namespace under which consent records are addressed in a durable
/// store: consent id to [`Consent`].
#[derive(Clone, Copy, Debug, PartialEq, Eq, Structural)]
pub enum ConsentBook {
    Consent(u64),
}

/// Key namespace under which patient profiles are addressed in a durable
/// store: patient address to [`PatientProfile`].
#[derive(Clone, Copy, Debug, PartialEq, Eq, Structural)]
pub enum PatientBook {
    Patient(Address),
}

/// Key namespace under which access-log entries are addressed in a durable
/// store: access id to [`DataAccess`].
#[derive(Clone, Copy, Debug, PartialEq, Eq, Structural)]
pub enum AccessLog {
    Log(u64),
}

/// Aggregate counters over the whole registry, updated in the same atomic
/// call as the primary record they count.
#[derive(Clone, Copy, Debug, PartialEq, Eq, Structural)]
pub struct VaultStats {
    pub total_patients: u64,
    pub total_consents: u64,
    pub active_consents: u64,
    pub revoked_consents: u64,
}

/// A patient's authorization for one provider to access one data category
/// for one purpose, bounded by an expiry timestamp.
#[derive(Debug)]
pub struct Consent {
    pub consent_id: u64,
    pub patient: Address,
    pub provider: Address,
    pub purpose: AccessPurpose,
    pub data_category: String,
    pub grant_date: u64,
    pub expiry_date: u64,
    pub status: ConsentStatus,
    pub scope_description: String,
}

/// Mathematical value of a [`Consent`]: the same fields with text as a
/// sequence of characters.
#[verifier::ext_equal]
pub struct ConsentV {
    pub consent_id: u64,
    pub patient: Address,
    pub provider: Address,
    pub purpose: AccessPurpose,
    pub data_category: Seq<char>,
    pub grant_date: u64,
    pub expiry_date: u64,
    pub status: ConsentStatus,
    pub scope_description: Seq<char>,
}

impl View for Consent {
    type V = ConsentV;

    open spec fn view(&self) -> ConsentV {
        ConsentV {
            consent_id: self.consent_id,
            patient: self.patient,
            provider: self.provider,
            purpose: self.purpose,
            data_category: self.data_category@,
            grant_date: self.grant_date,
            expiry_date: self.expiry_date,
            status: self.status,
            scope_description: self.scope_description@,
        }
    }
}

impl Clone for Consent {
    fn clone(&self) -> (r: Self)
        ensures
            r == *self,
    {
        Consent {
            consent_id: self.consent_id,
            patient: self.patient,
            provider: self.provider,
            purpose: self.purpose,
            data_category: self.data_category.clone(),
            grant_date: self.grant_date,
            expiry_date: self.expiry_date,
            status: self.status,
            scope_description: self.scope_description.clone(),
        }
    }
}

/// A patient's profile: identity, display name, registration time and the
/// per-patient consent counters.
#[derive(Debug)]
pub struct PatientProfile {
    pub patient: Address,
    pub patient_name: String,
    pub registration_date: u64,
    pub total_consents_granted: u64,
    pub active_consents_count: u64,
}

/// Mathematical value of a [`PatientProfile`].
#[verifier::ext_equal]
pub struct PatientProfileV {
    pub patient: Address,
    pub patient_name: Seq<char>,
    pub registration_date: u64,
    pub total_consents_granted: u64,
    pub active_consents_count: u64,
}

impl View for PatientProfile {
    type V = PatientProfileV;

    open spec fn view(&self) -> PatientProfileV {
        PatientProfileV {
            patient: self.patient,
            patient_name: self.patient_name@,
            registration_date: self.registration_date,
            total_consents_granted: self.total_consents_granted,
            active_consents_count: self.active_consents_count,
        }
    }
}

impl Clone for PatientProfile {
    fn clone(&self) -> (r: Self)
        ensures
            r == *self,
    {
        PatientProfile {
            patient: self.patient,
            patient_name: self.patient_name.clone(),
            registration_date: self.registration_date,
            total_consents_granted: self.total_consents_granted,
            active_consents_count: self.active_consents_count,
        }
    }
}

/// One immutable entry of the append-only data-access log.
#[derive(Clone, Copy, Debug, PartialEq, Eq, Structural)]
pub struct DataAccess {
    pub access_id: u64,
    pub consent_id: u64,
    pub provider: Address,
    pub access_date: u64,
    pub access_purpose: AccessPurpose,
}

/// Mathematical value of the whole registry.
#[verifier::ext_equal]
pub struct VaultV {
    pub patients: Map<Address, PatientProfileV>,
    /// Consent with id `i + 1` lives at index `i`; ids are 1-based, monotonic
    /// and never reused.
    pub consents: Seq<ConsentV>,
    /// Entry with access id `i + 1` lives at index `i`.
    pub access_logs: Seq<DataAccess>,
    pub stats: VaultStats,
}

/// The sentinel consent record returned when a consent id is absent: its
/// `consent_id` is 0, which no stored record ever carries.
pub open spec fn sentinel_consent() -> ConsentV {
    ConsentV {
        consent_id: 0,
        patient: 0,
        provider: 0,
        purpose: AccessPurpose::Other,
        data_category: "Not_Found"@,
        grant_date: 0,
        expiry_date: 0,
        status: ConsentStatus::Expired,
        scope_description: "Not_Found"@,
    }
}

/// The sentinel profile returned when a patient address is absent: its
/// `registration_date` is 0, which no stored profile ever carries.
pub open spec fn sentinel_profile(patient: Address) -> PatientProfileV {
    PatientProfileV {
        patient,
        patient_name: "Not_Found"@,
        registration_date: 0,
        total_consents_granted: 0,
        active_consents_count: 0,
    }
}

/// The sentinel access-log entry returned when an access id is absent: its
/// `access_id` is 0, which no stored entry ever carries.
pub open spec fn sentinel_access() -> DataAccess {
    DataAccess {
        access_id: 0,
        consent_id: 0,
        provider: 0,
        access_date: 0,
        access_purpose: AccessPurpose::Other,
    }
}

/// What a consent lookup returns: the stored record for ids 1 through the
/// number of consents ever granted, the sentinel for every other id.
pub open spec fn spec_view_consent(s: VaultV, consent_id: u64) -> ConsentV {
    if 1 <= consent_id && consent_id <= s.consents.len() {
        s.consents[consent_id as int - 1]
    } else {
        sentinel_consent()
    }
}

/// What a profile lookup returns: the stored profile, or the sentinel.
pub open spec fn spec_view_patient_profile(s: VaultV, patient: Address) -> PatientProfileV {
    if s.patients.contains_key(patient) {
        s.patients[patient]
    } else {
        sentinel_profile(patient)
    }
}

/// What an access-log lookup returns: the stored entry, or the sentinel.
pub open spec fn spec_view_access_log(s: VaultV, access_id: u64) -> DataAccess {
    if 1 <= access_id && access_id <= s.access_logs.len() {
        s.access_logs[access_id as int - 1]
    } else {
        sentinel_access()
    }
}

/// A consent is valid iff it exists, is flagged `Active`, and is unexpired at
/// `now`. Expiry is computed on demand; the stored status never transitions
/// to `Expired` by itself.
pub open spec fn spec_consent_valid(s: VaultV, consent_id: u64, now: u64) -> bool {
    let c = spec_view_consent(s, consent_id);
    &&& c.consent_id != 0
    &&& c.status == ConsentStatus::Active
    &&& now <= c.expiry_date
}

/// The empty registry: no records, all counters zero.
pub open spec fn empty_vault() -> VaultV {
    VaultV {
        patients: Map::empty(),
        consents: Seq::empty(),
        access_logs: Seq::empty(),
        stats: VaultStats {
            total_patients: 0,
            total_consents: 0,
            active_consents: 0,
            revoked_consents: 0,
        },
    }
}

/// Well-formedness of the registry state. Every operation preserves it.
pub open spec fn vault_wf(s: VaultV) -> bool {
    &&& s.stats.total_consents == s.consents.len()
    &&& s.stats.active_consents <= s.stats.total_consents
    &&& forall|i: int| 0 <= i < s.consents.len() ==> {
        let c = #[trigger] s.consents[i];
        &&& c.consent_id == i + 1
        &&& c.grant_date < c.expiry_date
        &&& s.patients.contains_key(c.patient)
    }
    &&& forall|i: int| 0 <= i < s.access_logs.len() ==> {
        let l = #[trigger] s.access_logs[i];
        &&& l.access_id == i + 1
        &&& 1 <= l.consent_id <= s.consents.len()
    }
    &&& forall|a: Address| #[trigger] s.patients.contains_key(a) ==> {
        let p = s.patients[a];
        &&& p.patient == a
        &&& 1 <= p.registration_date
        &&& p.active_consents_count <= p.total_consents_granted
        &&& p.total_consents_granted <= s.consents.len()
    }
}

/// The transition made by [`PatientConsentVault::register_patient`]: the
/// state after the call, paired with its result.
///
/// The invoking principal must authenticate as `patient` itself, and no
/// profile may exist for `patient` yet; then a fresh profile with zeroed
/// counters is stored and the total-patients counter rises by one.
pub open spec fn spec_register_patient(
    s: VaultV,
    invoker: Address,
    patient: Address,
    patient_name: Seq<char>,
    now: u64,
) -> (VaultV, Result<(), VaultError>) {
    if invoker != patient {
        (s, Err(VaultError::Unauthorized))
    } else if s.patients.contains_key(patient) {
        (s, Err(VaultError::AlreadyRegistered))
    } else {
        let profile = PatientProfileV {
            patient,
            patient_name,
            registration_date: now,
            total_consents_granted: 0,
            active_consents_count: 0,
        };
        let stats = VaultStats {
            total_patients: (s.stats.total_patients + 1) as u64,
            total_consents: s.stats.total_consents,
            active_consents: s.stats.active_consents,
            revoked_consents: s.stats.revoked_consents,
        };
        let s2 = VaultV {
            patients: s.patients.insert(patient, profile),
            consents: s.consents,
            access_logs: s.access_logs,
            stats,
        };
        (s2, Ok(()))
    }
}

/// The number of seconds in one day: the fixed radix by which a validity in
/// days becomes an expiry offset in ledger seconds.
pub const SECONDS_PER_DAY: u64 = 86400;

/// The transition made by [`PatientConsentVault::grant_consent`].
///
/// The invoking principal must authenticate as `patient`, and `patient` must
/// already be registered. The consent id is one more than the number of
/// consents ever granted (ids start at 1 and are never reused), the expiry is
/// `now + validity_days * 86400`, and the patient's counters and the
/// registry-wide consent counters each rise by one.
pub open spec fn spec_grant_consent(
    s: VaultV,
    invoker: Address,
    patient: Address,
    provider: Address,
    purpose: AccessPurpose,
    data_category: Seq<char>,
    validity_days: u64,
    scope_description: Seq<char>,
    now: u64,
) -> (VaultV, Result<u64, VaultError>) {
    if invoker != patient {
        (s, Err(VaultError::Unauthorized))
    } else if !s.patients.contains_key(patient) {
        (s, Err(VaultError::NotRegistered))
    } else {
        let id = (s.consents.len() + 1) as u64;
        let consent = ConsentV {
            consent_id: id,
            patient,
            provider,
            purpose,
            data_category,
            grant_date: now,
            expiry_date: (now + validity_days * SECONDS_PER_DAY) as u64,
            status: ConsentStatus::Active,
            scope_description,
        };
        let p = s.patients[patient];
        let p2 = PatientProfileV {
            patient: p.patient,
            patient_name: p.patient_name,
            registration_date: p.registration_date,
            total_consents_granted: (p.total_consents_granted + 1) as u64,
            active_consents_count: (p.active_consents_count + 1) as u64,
        };
        let stats = VaultStats {
            total_patients: s.stats.total_patients,
            total_consents: (s.stats.total_consents + 1) as u64,
            active_consents: (s.stats.active_consents + 1) as u64,
            revoked_consents: s.stats.revoked_consents,
        };
        let s2 = VaultV {
            patients: s.patients.insert(patient, p2),
            consents: s.consents.push(consent),
            access_logs: s.access_logs,
            stats,
        };
        (s2, Ok(id))
    }
}

/// The transition made by [`PatientConsentVault::revoke_consent`].
///
/// Checked in order, each failure distinct: the invoking principal must
/// authenticate as `patient`; the consent must exist (`NotFound`), belong to
/// `patient` (`Unauthorized`), and be `Active` (`NotActive`). On success the
/// status becomes `Revoked`, the active counters fall by one saturating at
/// zero, and the revoked counter rises by one. Expiry is not checked: an
/// expired consent still flagged `Active` can be revoked.
pub open spec fn spec_revoke_consent(
    s: VaultV,
    invoker: Address,
    consent_id: u64,
    patient: Address,
) -> (VaultV, Result<(), VaultError>) {
    if invoker != patient {
        (s, Err(VaultError::Unauthorized))
    } else {
        let c = spec_view_consent(s, consent_id);
        if c.consent_id == 0 {
            (s, Err(VaultError::NotFound))
        } else if c.patient != patient {
            (s, Err(VaultError::Unauthorized))
        } else if c.status != ConsentStatus::Active {
            (s, Err(VaultError::NotActive))
        } else {
            let c2 = ConsentV {
                consent_id: c.consent_id,
                patient: c.patient,
                provider: c.provider,
                purpose: c.purpose,
                data_category: c.data_category,
                grant_date: c.grant_date,
                expiry_date: c.expiry_date,
                status: ConsentStatus::Revoked,
                scope_description: c.scope_description,
            };
            let p = spec_view_patient_profile(s, patient);
            let p2 = PatientProfileV {
                patient: p.patient,
                patient_name: p.patient_name,
                registration_date: p.registration_date,
                total_consents_granted: p.total_consents_granted,
                active_consents_count: if p.active_consents_count > 0 {
                    (p.active_consents_count - 1) as u64
                } else {
                    0
                },
            };
            let stats = VaultStats {
                total_patients: s.stats.total_patients,
                total_consents: s.stats.total_consents,
                active_consents: if s.stats.active_consents > 0 {
                    (s.stats.active_consents - 1) as u64
                } else {
                    0
                },
                revoked_consents: (s.stats.revoked_consents + 1) as u64,
            };
            let s2 = VaultV {
                patients: s.patients.insert(patient, p2),
                consents: s.consents.update(consent_id as int - 1, c2),
                access_logs: s.access_logs,
                stats,
            };
            (s2, Ok(()))
        }
    }
}

/// The transition made by [`PatientConsentVault::log_data_access`].
///
/// Checked in order: the invoking principal must authenticate as `provider`;
/// the consent must exist (`NotFound`), name `provider` exactly
/// (`Unauthorized`), be `Active` (`NotActive`), be unexpired at `now`
/// (`Expired`), and its purpose must equal the requested one or be the
/// `Other` wildcard (`PurposeMismatch`). On success one immutable entry is
/// appended to the access log; no other record changes. Access ids come from
/// their own 1-based monotonic counter, independent of consent ids.
pub open spec fn spec_log_data_access(
    s: VaultV,
    invoker: Address,
    consent_id: u64,
    provider: Address,
    access_purpose: AccessPurpose,
    now: u64,
) -> (VaultV, Result<u64, VaultError>) {
    if invoker != provider {
        (s, Err(VaultError::Unauthorized))
    } else {
        let c = spec_view_consent(s, consent_id);
        if c.consent_id == 0 {
            (s, Err(VaultError::NotFound))
        } else if c.provider != provider {
            (s, Err(VaultError::Unauthorized))
        } else if c.status != ConsentStatus::Active {
            (s, Err(VaultError::NotActive))
        } else if now > c.expiry_date {
            (s, Err(VaultError::Expired))
        } else if c.purpose != access_purpose && c.purpose != AccessPurpose::Other {
            (s, Err(VaultError::PurposeMismatch))
        } else {
            let id = (s.access_logs.len() + 1) as u64;
            let rec = DataAccess {
                access_id: id,
                consent_id,
                provider,
                access_date: now,
                access_purpose,
            };
            let s2 = VaultV {
                patients: s.patients,
                consents: s.consents,
                access_logs: s.access_logs.push(rec),
                stats: s.stats,
            };
            (s2, Ok(id))
        }
    }
}

/// The consent registry. The host owns one value of this type and applies
/// every public operation to it in series.
pub struct PatientConsentVault {
    patients: HashMap<Address, PatientProfile>,
    consents: Vec<Consent>,
    access_logs: Vec<DataAccess>,
    stats: VaultStats,
}

impl View for PatientConsentVault {
    type V = VaultV;

    closed spec fn view(&self) -> VaultV {
        VaultV {
            patients: self.patients@.map_values(|p: PatientProfile| p@),
            consents: self.consents@.map_values(|c: Consent| c@),
            access_logs: self.access_logs@,
            stats: self.stats,
        }
    }
}

/// Returns an owned `String` holding the sentinel placeholder text.
fn not_found_text() -> (s: String)
    ensures
        s@ == "Not_Found"@,
{
    "Not_Found".to_owned()
}

impl PatientConsentVault {
    /// Well-formedness of this registry value; see [`vault_wf`].
    pub open spec fn wf(&self) -> bool {
        vault_wf(self@)
    }

    /// Creates an empty registry.
    pub fn new() -> (r: Self)
        ensures
            r.wf(),
            r@ == empty_vault(),
    {
        let r = PatientConsentVault {
            patients: HashMap::new(),
            consents: Vec::new(),
            access_logs: Vec::new(),
            stats: VaultStats {
                total_patients: 0,
                total_consents: 0,
                active_consents: 0,
                revoked_consents: 0,
            },
        };
        proof {
            assert(r@ =~~= empty_vault());
        }
        r
    }

    /// Looks a consent up by id. Total: an absent id yields the sentinel
    /// record (`consent_id == 0`) rather than a failure.
    pub fn view_consent(&self, consent_id: u64) -> (r: Consent)
        ensures
            r@ == spec_view_consent(self@, consent_id),
    {
        if 1 <= consent_id && consent_id <= self.consents.len() as u64 {
            self.consents[(consent_id - 1) as usize].clone()
        } else {
            Consent {
                consent_id: 0,
                patient: 0,
                provider: 0,
                purpose: AccessPurpose::Other,
                data_category: not_found_text(),
                grant_date: 0,
                expiry_date: 0,
                status: ConsentStatus::Expired,
                scope_description: not_found_text(),
            }
        }
    }

    /// Looks a patient profile up by address. Total: an absent address
    /// yields the sentinel profile (`registration_date == 0`).
    pub fn view_patient_profile(&self, patient: Address) -> (r: PatientProfile)
        ensures
            r@ == spec_view_patient_profile(self@, patient),
    {
        match self.patients.get(&patient) {
            Some(p) => p.clone(),
            None => PatientProfile {
                patient,
                patient_name: not_found_text(),
                registration_date: 0,
                total_consents_granted: 0,
                active_consents_count: 0,
            },
        }
    }

    /// Looks an access-log entry up by id. Total: an absent id yields the
    /// sentinel entry (`access_id == 0`).
    pub fn view_access_log(&self, access_id: u64) -> (r: DataAccess)
        ensures
            r == spec_view_access_log(self@, access_id),
    {
        if 1 <= access_id && access_id <= self.access_logs.len() as u64 {
            self.access_logs[(access_id - 1) as usize]
        } else {
            DataAccess {
                access_id: 0,
                consent_id: 0,
                provider: 0,
                access_date: 0,
                access_purpose: AccessPurpose::Other,
            }
        }
    }

    /// Returns the aggregate counters.
    pub fn view_vault_stats(&self) -> (r: VaultStats)
        ensures
            r == self@.stats,
    {
        self.stats
    }

    /// Registers `patient` in the registry, creating its profile with
    /// registration time `now` and zeroed counters.
    ///
    /// `invoker` is the principal the host authenticated for this call; the
    /// call fails with `Unauthorized` unless it is `patient` itself, and with
    /// `AlreadyRegistered` if a profile already exists. On failure the state
    /// is unchanged.
    pub fn register_patient(
        &mut self,
        invoker: Address,
        patient: Address,
        patient_name: String,
        now: u64,
    ) -> (r: Result<(), VaultError>)
        requires
            old(self).wf(),
            1 <= now,
            old(self)@.stats.total_patients < u64::MAX,
        ensures
            final(self).wf(),
            (final(self)@, r) == spec_register_patient(
                old(self)@,
                invoker,
                patient,
                patient_name@,
                now,
            ),
    {
        let ghost name_v = patient_name@;
        if invoker != patient {
            return Err(VaultError::Unauthorized);
        }
        let existing = self.view_patient_profile(patient);
        if existing.registration_date > 0 {
            return Err(VaultError::AlreadyRegistered);
        }
        let new_patient = PatientProfile {
            patient,
            patient_name,
            registration_date: now,
            total_consents_granted: 0,
            active_consents_count: 0,
        };
        let mut stats = self.view_vault_stats();
        stats.total_patients = stats.total_patients + 1;
        self.patients.insert(patient, new_patient);
        self.stats = stats;
        proof {
            let (s2, res) = spec_register_patient(old(self)@, invoker, patient, name_v, now);
            assert(self@.patients =~= s2.patients);
            assert(self@ =~~= s2);
        }
        Ok(())
    }

    /// Grants a consent from `patient` to `provider` and returns the new
    /// consent id: ids are 1-based, rise by exactly one per grant, and are
    /// never reused, even across revocations.
    ///
    /// `invoker` is the principal the host authenticated for this call; the
    /// call fails with `Unauthorized` unless it is `patient` itself, and with
    /// `NotRegistered` if `patient` has no profile. On failure the state is
    /// unchanged. A validity of at least one day keeps the expiry strictly
    /// after the grant date, as every stored consent has it.
    pub fn grant_consent(
        &mut self,
        invoker: Address,
        patient: Address,
        provider: Address,
        purpose: AccessPurpose,
        data_category: String,
        validity_days: u64,
        scope_description: String,
        now: u64,
    ) -> (r: Result<u64, VaultError>)
        requires
            old(self).wf(),
            1 <= validity_days,
            now + validity_days * SECONDS_PER_DAY <= u64::MAX,
            old(self)@.consents.len() < u64::MAX,
        ensures
            final(self).wf(),
            (final(self)@, r) == spec_grant_consent(
                old(self)@,
                invoker,
                patient,
                provider,
                purpose,
                data_category@,
                validity_days,
                scope_description@,
                now,
            ),
    {
        let ghost category_v = data_category@;
        let ghost scope_v = scope_description@;
        if invoker != patient {
            return Err(VaultError::Unauthorized);
        }
        let mut patient_profile = self.view_patient_profile(patient);
        if patient_profile.registration_date == 0 {
            return Err(VaultError::NotRegistered);
        }
        let count_consent = self.consents.len() as u64 + 1;
        let expiry_date = now + validity_days * SECONDS_PER_DAY;
        let new_consent = Consent {
            consent_id: count_consent,
            patient,
            provider,
            purpose,
            data_category,
            grant_date: now,
            expiry_date,
            status: ConsentStatus::Active,
            scope_description,
        };
        patient_profile.total_consents_granted = patient_profile.total_consents_granted + 1;
        patient_profile.active_consents_count = patient_profile.active_consents_count + 1;
        let mut stats = self.view_vault_stats();
        stats.total_consents = stats.total_consents + 1;
        stats.active_consents = stats.active_consents + 1;
        self.consents.push(new_consent);
        self.patients.insert(patient, patient_profile);
        self.stats = stats;
        proof {
            let (s2, res) = spec_grant_consent(
                old(self)@,
                invoker,
                patient,
                provider,
                purpose,
                category_v,
                validity_days,
                scope_v,
                now,
            );
            assert(self@.patients =~= s2.patients);
            assert(self@.consents =~= s2.consents);
            assert(self@ =~~= s2);
        }
        Ok(count_consent)
    }

    /// Revokes the consent with id `consent_id` on behalf of `patient`.
    ///
    /// `invoker` is the principal the host authenticated for this call; both
    /// the principal and the record's ownership are checked. On failure the
    /// state is unchanged. The active counters saturate at zero rather than
    /// underflow, even if they were already inconsistent.
    pub fn revoke_consent(
        &mut self,
        invoker: Address,
        consent_id: u64,
        patient: Address,
    ) -> (r: Result<(), VaultError>)
        requires
            old(self).wf(),
            old(self)@.stats.revoked_consents < u64::MAX,
        ensures
            final(self).wf(),
            (final(self)@, r) == spec_revoke_consent(old(self)@, invoker, consent_id, patient),
    {
        if invoker != patient {
            return Err(VaultError::Unauthorized);
        }
        let mut consent = self.view_consent(consent_id);
        if consent.consent_id == 0 {
            return Err(VaultError::NotFound);
        }
        if consent.patient != patient {
            return Err(VaultError::Unauthorized);
        }
        if consent.status != ConsentStatus::Active {
            return Err(VaultError::NotActive);
        }
        consent.status = ConsentStatus::Revoked;
        let mut patient_profile = self.view_patient_profile(patient);
        if patient_profile.active_consents_count > 0 {
            patient_profile.active_consents_count = patient_profile.active_consents_count - 1;
        }
        let mut stats = self.view_vault_stats();
        if stats.active_consents > 0 {
            stats.active_consents = stats.active_consents - 1;
        }
        stats.revoked_consents = stats.revoked_consents + 1;
        let n = self.consents.len();
        proof {
            assert(1 <= consent_id && consent_id <= old(self)@.consents.len());
            assert(old(self)@.consents.len() == n);
        }
        let idx = (consent_id - 1) as usize;
        self.consents[idx] = consent;
        self.patients.insert(patient, patient_profile);
        self.stats = stats;
        proof {
            let (s2, res) = spec_revoke_consent(old(self)@, invoker, consent_id, patient);
            assert(self@.patients =~= s2.patients);
            assert(self@.consents =~= s2.consents);
            assert(self@ =~~= s2);
        }
        Ok(())
    }

    /// Appends an entry to the access log for a read `provider` makes under
    /// the consent `consent_id`, and returns the new access id.
    ///
    /// `invoker` is the principal the host authenticated for this call; it
    /// must be `provider` itself, and the consent must exist, name exactly
    /// this provider, be `Active`, be unexpired at `now`, and cover the
    /// requested purpose (its own purpose, or the `Other` wildcard). On
    /// failure the state is unchanged; on success nothing but the access log
    /// changes.
    pub fn log_data_access(
        &mut self,
        invoker: Address,
        consent_id: u64,
        provider: Address,
        access_purpose: AccessPurpose,
        now: u64,
    ) -> (r: Result<u64, VaultError>)
        requires
            old(self).wf(),
            old(self)@.access_logs.len() < u64::MAX,
        ensures
            final(self).wf(),
            (final(self)@, r) == spec_log_data_access(
                old(self)@,
                invoker,
                consent_id,
                provider,
                access_purpose,
                now,
            ),
    {
        if invoker != provider {
            return Err(VaultError::Unauthorized);
        }
        let consent = self.view_consent(consent_id);
        if consent.consent_id == 0 {
            return Err(VaultError::NotFound);
        }
        if consent.provider != provider {
            return Err(VaultError::Unauthorized);
        }
        if consent.status != ConsentStatus::Active {
            return Err(VaultError::NotActive);
        }
        if now > consent.expiry_date {
            return Err(VaultError::Expired);
        }
        if consent.purpose != access_purpose && consent.purpose != AccessPurpose::Other {
            return Err(VaultError::PurposeMismatch);
        }
        let count_access = self.access_logs.len() as u64 + 1;
        let access_record = DataAccess {
            access_id: count_access,
            consent_id,
            provider,
            access_date: now,
            access_purpose,
        };
        self.access_logs.push(access_record);
        proof {
            let (s2, res) = spec_log_data_access(
                old(self)@,
                invoker,
                consent_id,
                provider,
                access_purpose,
                now,
            );
            assert(self@.access_logs =~= s2.access_logs);
            assert(self@ =~~= s2);
        }
        Ok(count_access)
    }

    /// Composite read: false if the consent is absent, else true iff it is
    /// `Active` and unexpired at `now`. Does not check purpose.
    pub fn verify_consent_validity(&self, consent_id: u64, now: u64) -> (r: bool)
        ensures
            r == spec_consent_valid(self@, consent_id, now),
    {
        let c = self.view_consent(consent_id);
        if c.consent_id == 0 {
            false
        } else {
            c.status == ConsentStatus::Active && now <= c.expiry_date
        }
    }
}

/// Law: registering the same patient twice fails the second time with
/// `AlreadyRegistered` and changes nothing further, and the total-patients
/// counter rises by exactly one across the two calls.
pub proof fn lemma_register_patient_once(
    s: VaultV,
    patient: Address,
    name1: Seq<char>,
    now1: u64,
    name2: Seq<char>,
    now2: u64,
)
    requires
        s.stats.total_patients < u64::MAX,
        spec_register_patient(s, patient, patient, name1, now1).1 is Ok,
    ensures
        ({
            let s1 = spec_register_patient(s, patient, patient, name1, now1).0;
            &&& spec_register_patient(s1, patient, patient, name2, now2).1 == Err::<
                (),
                VaultError,
            >(VaultError::AlreadyRegistered)
            &&& spec_register_patient(s1, patient, patient, name2, now2).0 == s1
            &&& s1.stats.total_patients == s.stats.total_patients + 1
        }),
{
}

/// Law: consent ids are strictly increasing by one starting at 1 — in every
/// well-formed state the consent at position `i` of the grant order carries
/// id `i + 1`. Revocation only rewrites a status field, so interleaved
/// revocations never disturb the sequence.
pub proof fn lemma_consent_ids_sequential(s: VaultV)
    requires
        vault_wf(s),
    ensures
        forall|i: int|
            0 <= i < s.consents.len() ==> #[trigger] s.consents[i].consent_id == i + 1,
{
}

/// Law: a successful grant hands out exactly the next id — one more than the
/// number of consents ever granted before it.
pub proof fn lemma_grant_returns_next_id(
    s: VaultV,
    patient: Address,
    provider: Address,
    purpose: AccessPurpose,
    data_category: Seq<char>,
    validity_days: u64,
    scope_description: Seq<char>,
    now: u64,
)
    requires
        spec_grant_consent(
            s,
            patient,
            patient,
            provider,
            purpose,
            data_category,
            validity_days,
            scope_description,
            now,
        ).1 is Ok,
    ensures
        ({
            let (s1, r) = spec_grant_consent(
                s,
                patient,
                patient,
                provider,
                purpose,
                data_category,
                validity_days,
                scope_description,
                now,
            );
            &&& r == Ok::<u64, VaultError>((s.consents.len() + 1) as u64)
            &&& s1.consents.len() == s.consents.len() + 1
        }),
{
}

/// Law: revocation is idempotent-safe — after a successful revocation,
/// revoking the same id again fails with `NotActive` and changes nothing.
/// The counters are unsigned and every decrement saturates at zero, so no
/// counter ever goes below zero.
pub proof fn lemma_revoke_twice(s: VaultV, consent_id: u64, patient: Address)
    requires
        vault_wf(s),
        spec_revoke_consent(s, patient, consent_id, patient).1 is Ok,
    ensures
        ({
            let s1 = spec_revoke_consent(s, patient, consent_id, patient).0;
            &&& spec_revoke_consent(s1, patient, consent_id, patient).1 == Err::<
                (),
                VaultError,
            >(VaultError::NotActive)
            &&& spec_revoke_consent(s1, patient, consent_id, patient).0 == s1
        }),
{
}

/// Law: with the consent present, owned by the invoking provider and flagged
/// `Active`, logging an access at a time past the expiry date fails with
/// `Expired` whatever the purpose, and at any time up to the expiry date it
/// succeeds iff the requested purpose equals the consent's purpose or the
/// consent's purpose is the `Other` wildcard. (A consent that is expired but
/// no longer `Active` fails with `NotActive` instead: the status check comes
/// first.)
pub proof fn lemma_log_access_gate(
    s: VaultV,
    consent_id: u64,
    provider: Address,
    purpose: AccessPurpose,
    now: u64,
)
    requires
        vault_wf(s),
        ({
            let c = spec_view_consent(s, consent_id);
            &&& c.consent_id != 0
            &&& c.provider == provider
            &&& c.status == ConsentStatus::Active
        }),
    ensures
        ({
            let c = spec_view_consent(s, consent_id);
            let r = spec_log_data_access(s, provider, consent_id, provider, purpose, now).1;
            &&& now > c.expiry_date ==> r == Err::<u64, VaultError>(VaultError::Expired)
            &&& now <= c.expiry_date ==> (r is Ok <==> (purpose == c.purpose || c.purpose
                == AccessPurpose::Other))
        }),
{
}

} // verus!
