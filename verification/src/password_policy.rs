//! The rules for new passwords.
//!
//! A password is judged by its length, then by whether it is known to have leaked, then by whether
//! it was used before: the cheap questions first. The policy is that of the tenant the user
//! belongs to.
use crate::model::{Reply, TenantId, Uuid};
use crate::text::{nat_text, u64_text};
use crate::time::Timestamp;
use vstd::prelude::*;

verus! {

/// A history that keeps nothing.
pub struct NoPasswordHistory;

impl NoPasswordHistory {
    /// Keeps nothing.
    pub fn push(
        &self,
        user_id: Uuid,
        password_hash: &str,
        retired_at: Timestamp,
        retain: u32,
    ) -> (r: Result<(), String>)
        ensures
            r == Ok::<(), String>(()),
    {
        Ok(())
    }

    /// Knows nothing.
    pub fn recent(&self, user_id: Uuid, limit: u32) -> (r: Result<Vec<String>, String>)
        ensures
            r matches Ok(hashes) && hashes@.len() == 0,
    {
        Ok(Vec::new())
    }
}

/// A tenant's rules.
#[derive(Clone, Copy, Debug, PartialEq, Eq, Structural)]
pub struct PasswordPolicy {
    pub min_length: u32,
    pub reject_breached: bool,
    /// How many passwords, the current one among them, must not be used again.
    pub history_count: u32,
}

pub enum PasswordRejection {
    /// Too short, with the rule in words.
    Strength(String),
    Breached,
    Reused,
}

impl PasswordPolicy {
    pub open spec fn checks_history_of(self) -> bool {
        self.history_count > 0
    }

    /// How many retired passwords are kept and looked at: the current one is not among them.
    pub open spec fn retired_of(self) -> int {
        if self.history_count > 0 {
            self.history_count - 1
        } else {
            0
        }
    }

    pub fn checks_history(&self) -> (r: bool)
        ensures
            r == self.checks_history_of(),
    {
        self.history_count > 0
    }

    pub fn retired_hashes_to_check(&self) -> (r: u32)
        ensures
            r == self.retired_of(),
    {
        if self.history_count > 0 {
            self.history_count - 1
        } else {
            0
        }
    }

    pub fn retained_history_len(&self) -> (r: u32)
        ensures
            r == self.retired_of(),
    {
        self.retired_hashes_to_check()
    }

    /// The rule on lengths in words.
    pub open spec fn length_rule_of(self) -> Seq<char> {
        "password must be at least "@ + nat_text(self.min_length as nat) + " characters"@
    }

    pub fn validate_length(&self, password: &str) -> (r: Result<(), PasswordRejection>)
        ensures
            r is Ok <==> password@.len() >= self.min_length,
            r matches Err(e) ==> (e matches PasswordRejection::Strength(m) && m@
                == self.length_rule_of()),
    {
        if password.unicode_len() as u64 >= self.min_length as u64 {
            Ok(())
        } else {
            let mut m: String = "password must be at least ".to_owned();
            let n: String = u64_text(self.min_length as u64);
            m.append(n.as_str());
            m.append(" characters");
            Err(PasswordRejection::Strength(m))
        }
    }
}

/// What is known of a password so far.
#[derive(Default)]
pub struct PolicyProgress {
    pub policy: Reply<PasswordPolicy>,
    pub breached: Reply<bool>,
    /// Whether the password is the current one.
    pub is_current: Reply<bool>,
    /// The retired passwords' hashes, the latest first.
    pub recent: Reply<Vec<String>>,
    /// Whether the password is each of them, as far as they were compared.
    pub is_retired: Vec<Result<bool, String>>,
}

/// What comes next: a call to make, or the verdict.
pub enum PolicyStep {
    LoadPolicy { tenant_id: TenantId },
    CheckBreached { password: String },
    VerifyCurrent { password: String, hash: String },
    RecentHashes { user_id: Uuid, limit: u32 },
    VerifyRetired { password: String, hash: String },
    /// The verdict, or the failure that left none.
    Done(Result<Result<(), PasswordRejection>, String>),
}

/// What comes next in taking down a change.
pub enum RecordStep {
    LoadPolicy { tenant_id: TenantId },
    PushHistory { user_id: Uuid, retired_hash: String, now: Timestamp, retain: u32 },
    Done,
}

pub struct PasswordPolicyService {
    /// Whether retired passwords are kept anywhere.
    pub keeps_history: bool,
    /// Whether leaked passwords can be asked for.
    pub checks_breaches: bool,
}

/// Comparing with the retired passwords, from the `i`-th on.
pub open spec fn retired_step(
    password: String,
    hashes: Seq<String>,
    compared: Seq<Result<bool, String>>,
    i: int,
) -> PolicyStep
    decreases hashes.len() - i,
{
    if i < 0 || i >= hashes.len() {
        PolicyStep::Done(Ok(Ok(())))
    } else if i >= compared.len() {
        PolicyStep::VerifyRetired { password, hash: hashes[i] }
    } else {
        match compared[i] {
            Err(e) => PolicyStep::Done(Err(e)),
            Ok(true) => PolicyStep::Done(Ok(Err(PasswordRejection::Reused))),
            Ok(false) => retired_step(password, hashes, compared, i + 1),
        }
    }
}

impl PasswordPolicyService {
    pub fn new() -> (r: Self)
        ensures
            r.keeps_history,
            r.checks_breaches,
    {
        PasswordPolicyService { keeps_history: true, checks_breaches: true }
    }

    /// A service that knows neither retired nor leaked passwords.
    pub fn without_history() -> (r: Self)
        ensures
            !r.keeps_history,
            !r.checks_breaches,
    {
        PasswordPolicyService { keeps_history: false, checks_breaches: false }
    }

    /// What comes next in learning a tenant's policy.
    pub open spec fn policy_rule(
        tenant_id: TenantId,
        known: Reply<PasswordPolicy>,
        r: Result<PasswordPolicy, PolicyStep>,
    ) -> bool {
        match known {
            None => r == Err::<PasswordPolicy, PolicyStep>(PolicyStep::LoadPolicy { tenant_id }),
            Some(Err(e)) => r == Err::<PasswordPolicy, PolicyStep>(PolicyStep::Done(Err(e))),
            Some(Ok(policy)) => r == Ok::<PasswordPolicy, PolicyStep>(policy),
        }
    }

    /// A tenant's policy, or what comes first.
    pub fn policy(
        &self,
        tenant_id: TenantId,
        known: &Reply<PasswordPolicy>,
    ) -> (r: Result<PasswordPolicy, PolicyStep>)
        ensures
            Self::policy_rule(tenant_id, *known, r),
    {
        match known {
            None => Err(PolicyStep::LoadPolicy { tenant_id }),
            Some(Err(e)) => Err(PolicyStep::Done(Err(e.clone()))),
            Some(Ok(policy)) => Ok(*policy),
        }
    }

    /// The questions that do not depend on the user: nothing is left of them where `r` is none.
    pub open spec fn input_rule(
        self,
        policy: PasswordPolicy,
        password: String,
        p: PolicyProgress,
        r: Option<PolicyStep>,
    ) -> bool {
        if password@.len() < policy.min_length {
            r matches Some(PolicyStep::Done(Ok(Err(PasswordRejection::Strength(m))))) && m@
                == policy.length_rule_of()
        } else if !policy.reject_breached || !self.checks_breaches {
            r is None
        } else {
            match p.breached {
                None => r == Some(PolicyStep::CheckBreached { password }),
                Some(Err(e)) => r == Some(PolicyStep::Done(Err(e))),
                Some(Ok(true)) => r == Some(PolicyStep::Done(Ok(Err(PasswordRejection::Breached)))),
                Some(Ok(false)) => r is None,
            }
        }
    }

    /// The questions about former passwords: the current one, where there is one, and as many
    /// retired ones as the policy asks for, where the user is known.
    pub open spec fn reuse(
        self,
        policy: PasswordPolicy,
        user_id: Option<Uuid>,
        current_hash: Option<String>,
        password: String,
        p: PolicyProgress,
    ) -> PolicyStep {
        if !policy.checks_history_of() {
            PolicyStep::Done(Ok(Ok(())))
        } else if current_hash is Some && p.is_current is None {
            PolicyStep::VerifyCurrent { password, hash: current_hash->0 }
        } else if current_hash is Some && p.is_current->0 is Err {
            PolicyStep::Done(Err(p.is_current->0->Err_0))
        } else if current_hash is Some && p.is_current->0->Ok_0 {
            PolicyStep::Done(Ok(Err(PasswordRejection::Reused)))
        } else if policy.retired_of() == 0 || user_id is None || !self.keeps_history {
            PolicyStep::Done(Ok(Ok(())))
        } else {
            match p.recent {
                None => PolicyStep::RecentHashes {
                    user_id: user_id->0,
                    limit: policy.retired_of() as u32,
                },
                Some(Err(e)) => PolicyStep::Done(Err(e)),
                Some(Ok(hashes)) => retired_step(password, hashes@, p.is_retired@, 0),
            }
        }
    }

    /// Decides what comes next in the questions that do not depend on the user.
    pub fn check_input(&self, policy: &PasswordPolicy, password: &String, p: &PolicyProgress) -> (r:
        Option<PolicyStep>)
        ensures
            self.input_rule(*policy, *password, *p, r),
    {
        if let Err(rejection) = policy.validate_length(password.as_str()) {
            return Some(PolicyStep::Done(Ok(Err(rejection))));
        }
        if !policy.reject_breached || !self.checks_breaches {
            return None;
        }
        match &p.breached {
            None => Some(PolicyStep::CheckBreached { password: password.clone() }),
            Some(Err(e)) => Some(PolicyStep::Done(Err(e.clone()))),
            Some(Ok(breached)) => if *breached {
                Some(PolicyStep::Done(Ok(Err(PasswordRejection::Breached))))
            } else {
                None
            },
        }
    }

    /// Decides what comes next in the questions about former passwords.
    pub fn check_reuse(
        &self,
        policy: &PasswordPolicy,
        user_id: Option<Uuid>,
        current_hash: &Option<String>,
        password: &String,
        p: &PolicyProgress,
    ) -> (r: PolicyStep)
        ensures
            r == self.reuse(*policy, user_id, *current_hash, *password, *p),
    {
        if !policy.checks_history() {
            return PolicyStep::Done(Ok(Ok(())));
        }
        if let Some(hash) = current_hash {
            match &p.is_current {
                None => return PolicyStep::VerifyCurrent {
                    password: password.clone(),
                    hash: hash.clone(),
                },
                Some(Err(e)) => return PolicyStep::Done(Err(e.clone())),
                Some(Ok(matches)) => if *matches {
                    return PolicyStep::Done(Ok(Err(PasswordRejection::Reused)));
                },
            }
        }
        let limit: u32 = policy.retired_hashes_to_check();
        if limit == 0 || !self.keeps_history {
            return PolicyStep::Done(Ok(Ok(())));
        }
        let owner: Uuid = match user_id {
            None => return PolicyStep::Done(Ok(Ok(()))),
            Some(owner) => owner,
        };
        let hashes: &Vec<String> = match &p.recent {
            None => return PolicyStep::RecentHashes { user_id: owner, limit },
            Some(Err(e)) => return PolicyStep::Done(Err(e.clone())),
            Some(Ok(hashes)) => hashes,
        };
        let mut i: usize = 0;
        while i < hashes.len()
            invariant
                i <= hashes.len(),
                retired_step(*password, hashes@, p.is_retired@, 0) == retired_step(
                    *password,
                    hashes@,
                    p.is_retired@,
                    i as int,
                ),
                self.reuse(*policy, user_id, *current_hash, *password, *p) == retired_step(
                    *password,
                    hashes@,
                    p.is_retired@,
                    0,
                ),
            decreases hashes.len() - i,
        {
            if i >= p.is_retired.len() {
                return PolicyStep::VerifyRetired {
                    password: password.clone(),
                    hash: hashes[i].clone(),
                };
            }
            match &p.is_retired[i] {
                Err(e) => return PolicyStep::Done(Err(e.clone())),
                Ok(matches) => if *matches {
                    return PolicyStep::Done(Ok(Err(PasswordRejection::Reused)));
                },
            }
            i = i + 1;
        }
        PolicyStep::Done(Ok(Ok(())))
    }

    /// What comes next in judging a new password.
    pub open spec fn validate_rule(
        self,
        tenant_id: TenantId,
        user_id: Option<Uuid>,
        current_hash: Option<String>,
        password: String,
        p: PolicyProgress,
        r: PolicyStep,
    ) -> bool {
        match p.policy {
            None => r == (PolicyStep::LoadPolicy { tenant_id }),
            Some(Err(e)) => r == PolicyStep::Done(Err(e)),
            Some(Ok(policy)) => exists|i: Option<PolicyStep>| #[trigger]
                self.input_rule(policy, password, p, i) && match i {
                    Some(step) => r == step,
                    None => r == self.reuse(policy, user_id, current_hash, password, p),
                },
        }
    }

    /// Decides what comes next in judging a new password.
    pub fn validate(
        &self,
        tenant_id: TenantId,
        user_id: Option<Uuid>,
        current_hash: &Option<String>,
        new_password: &String,
        p: &PolicyProgress,
    ) -> (r: PolicyStep)
        ensures
            self.validate_rule(tenant_id, user_id, *current_hash, *new_password, *p, r),
    {
        let policy: PasswordPolicy = match self.policy(tenant_id, &p.policy) {
            Ok(policy) => policy,
            Err(step) => return step,
        };
        let input: Option<PolicyStep> = self.check_input(&policy, new_password, p);
        proof {
            assert(self.input_rule(policy, *new_password, *p, input));
        }
        match input {
            Some(step) => step,
            None => self.check_reuse(&policy, user_id, current_hash, new_password, p),
        }
    }

    /// What comes next in judging a new password by itself.
    pub open spec fn validate_input_rule(
        self,
        tenant_id: TenantId,
        password: String,
        p: PolicyProgress,
        r: PolicyStep,
    ) -> bool {
        match p.policy {
            None => r == (PolicyStep::LoadPolicy { tenant_id }),
            Some(Err(e)) => r == PolicyStep::Done(Err(e)),
            Some(Ok(policy)) => exists|i: Option<PolicyStep>| #[trigger]
                self.input_rule(policy, password, p, i) && match i {
                    Some(step) => r == step,
                    None => r == PolicyStep::Done(Ok(Ok(()))),
                },
        }
    }

    /// Decides what comes next in judging a new password by itself, before its user is known.
    pub fn validate_input(
        &self,
        tenant_id: TenantId,
        new_password: &String,
        p: &PolicyProgress,
    ) -> (r: PolicyStep)
        ensures
            self.validate_input_rule(tenant_id, *new_password, *p, r),
    {
        let policy: PasswordPolicy = match self.policy(tenant_id, &p.policy) {
            Ok(policy) => policy,
            Err(step) => return step,
        };
        let input: Option<PolicyStep> = self.check_input(&policy, new_password, p);
        proof {
            assert(self.input_rule(policy, *new_password, *p, input));
        }
        match input {
            Some(step) => step,
            None => PolicyStep::Done(Ok(Ok(()))),
        }
    }

    /// What comes next in asking whether a password was used before.
    pub open spec fn validate_reuse_rule(
        self,
        tenant_id: TenantId,
        user_id: Option<Uuid>,
        current_hash: Option<String>,
        password: String,
        p: PolicyProgress,
        r: PolicyStep,
    ) -> bool {
        r == match p.policy {
            None => PolicyStep::LoadPolicy { tenant_id },
            Some(Err(e)) => PolicyStep::Done(Err(e)),
            Some(Ok(policy)) => self.reuse(policy, user_id, current_hash, password, p),
        }
    }

    /// Decides what comes next in asking whether a password was used before.
    pub fn validate_reuse(
        &self,
        tenant_id: TenantId,
        user_id: Option<Uuid>,
        current_hash: &Option<String>,
        new_password: &String,
        p: &PolicyProgress,
    ) -> (r: PolicyStep)
        ensures
            self.validate_reuse_rule(tenant_id, user_id, *current_hash, *new_password, *p, r),
    {
        match self.policy(tenant_id, &p.policy) {
            Ok(policy) => self.check_reuse(&policy, user_id, current_hash, new_password, p),
            Err(step) => step,
        }
    }

    /// What comes next once a password was replaced.
    pub open spec fn record_rule(
        tenant_id: TenantId,
        user_id: Uuid,
        retired_hash: String,
        now: Timestamp,
        known: Reply<PasswordPolicy>,
        pushed: bool,
        r: RecordStep,
    ) -> bool {
        r == match known {
            None => RecordStep::LoadPolicy { tenant_id },
            Some(Err(_)) => RecordStep::Done,
            Some(Ok(policy)) => if pushed {
                RecordStep::Done
            } else {
                RecordStep::PushHistory {
                    user_id,
                    retired_hash,
                    now,
                    retain: policy.retired_of() as u32,
                }
            },
        }
    }

    /// Decides what comes next once a password was replaced: its hash goes to the history as of
    /// `now`, cut to what the policy looks at. A failure leaves the history as it is and is not passed on.
    pub fn record_change(
        &self,
        tenant_id: TenantId,
        user_id: Uuid,
        retired_hash: &String,
        now: Timestamp,
        known: &Reply<PasswordPolicy>,
        pushed: bool,
    ) -> (r: RecordStep)
        ensures
            Self::record_rule(tenant_id, user_id, *retired_hash, now, *known, pushed, r),
    {
        match known {
            None => RecordStep::LoadPolicy { tenant_id },
            Some(Err(_)) => RecordStep::Done,
            Some(Ok(policy)) => if pushed {
                RecordStep::Done
            } else {
                RecordStep::PushHistory {
                    user_id,
                    retired_hash: retired_hash.clone(),
                    now,
                    retain: policy.retained_history_len(),
                }
            },
        }
    }
}

/// Where a comparison found the password among the retired ones, it is not accepted.
proof fn lemma_retired(
    password: String,
    hashes: Seq<String>,
    compared: Seq<Result<bool, String>>,
    i: int,
    k: int,
)
    requires
        0 <= i <= k < hashes.len(),
        k < compared.len(),
        !(compared[k] matches Ok(false)),
    ensures
        !(retired_step(password, hashes, compared, i) matches PolicyStep::Done(Ok(Ok(_)))),
    decreases k - i,
{
    if i < k {
        lemma_retired(password, hashes, compared, i + 1, k);
    }
}

proof fn lemma_all_compared(
    password: String,
    hashes: Seq<String>,
    compared: Seq<Result<bool, String>>,
    i: int,
)
    requires
        0 <= i,
        retired_step(password, hashes, compared, i) matches PolicyStep::Done(Ok(Ok(_))),
    ensures
        forall|k: int| i <= k < hashes.len() ==> k < compared.len() && (#[trigger] compared[k] matches Ok(false)),
    decreases hashes.len() - i,
{
    if i < hashes.len() {
        lemma_all_compared(password, hashes, compared, i + 1);
    }
}

/// A password is accepted only where it is long enough, is not known to have leaked (as far as the
/// policy asks), is not the current one, and was compared with every retired one that the policy
/// asks for and is none of them.
pub proof fn an_accepted_password_meets_the_policy(
    svc: PasswordPolicyService,
    tenant_id: TenantId,
    user_id: Option<Uuid>,
    current_hash: Option<String>,
    password: String,
    p: PolicyProgress,
)
    requires
        svc.validate_rule(
            tenant_id,
            user_id,
            current_hash,
            password,
            p,
            PolicyStep::Done(Ok(Ok(()))),
        ),
    ensures
        p.policy matches Some(Ok(policy)) && {
            &&& password@.len() >= policy.min_length
            &&& (policy.reject_breached && svc.checks_breaches ==> p.breached matches Some(Ok(false)))
            &&& (policy.history_count > 0 && current_hash is Some ==> p.is_current matches Some(Ok(false)))
            &&& (policy.history_count > 1 && user_id is Some && svc.keeps_history ==> (
            p.recent matches Some(Ok(hashes)) && (forall|k: int|
                0 <= k < hashes@.len() ==> k < p.is_retired@.len() && (#[trigger] p.is_retired@[k] matches Ok(
                    false,
                )))))
        },
{
    let policy = p.policy->0->Ok_0;
    if policy.history_count > 1 && user_id is Some && svc.keeps_history {
        match p.recent {
            Some(Ok(hashes)) => lemma_all_compared(password, hashes@, p.is_retired@, 0),
            _ => {},
        }
    }
}

/// A retired password that was found again is not accepted.
pub proof fn a_retired_password_is_refused(
    svc: PasswordPolicyService,
    policy: PasswordPolicy,
    user_id: Option<Uuid>,
    current_hash: Option<String>,
    password: String,
    p: PolicyProgress,
    hashes: Vec<String>,
    k: int,
)
    requires
        policy.history_count > 1,
        user_id is Some,
        svc.keeps_history,
        p.recent == Some(Ok::<Vec<String>, String>(hashes)),
        0 <= k < hashes@.len(),
        k < p.is_retired@.len(),
        p.is_retired@[k] matches Ok(true),
    ensures
        !(svc.reuse(policy, user_id, current_hash, password, p) matches PolicyStep::Done(Ok(Ok(_)))),
{
    lemma_retired(password, hashes@, p.is_retired@, 0, k);
}

/// Whether two lists of passwords differ does not matter where the policy keeps no history.
pub proof fn without_a_history_nothing_is_compared(
    svc: PasswordPolicyService,
    policy: PasswordPolicy,
    user_id: Option<Uuid>,
    current_hash: Option<String>,
    password: String,
    p: PolicyProgress,
)
    requires
        policy.history_count == 0,
    ensures
        svc.reuse(policy, user_id, current_hash, password, p) == PolicyStep::Done(Ok(Ok(()))),
{
}

proof fn lemma_next_comparison(
    password: String,
    hashes: Seq<String>,
    compared: Seq<Result<bool, String>>,
    i: int,
)
    requires
        i >= 0,
    ensures
        ({
            let r = retired_step(password, hashes, compared, i);
            r is Done || (r is VerifyRetired && compared.len() < hashes.len())
        }),
    decreases hashes.len() - i,
{
    if i < hashes.len() && i < compared.len() {
        lemma_next_comparison(password, hashes, compared, i + 1);
    }
}

/// Judging a password asks for nothing that is known already, and compares it with each retired one
/// once.
pub proof fn nothing_is_asked_twice(
    svc: PasswordPolicyService,
    tenant_id: TenantId,
    user_id: Option<Uuid>,
    current_hash: Option<String>,
    password: String,
    p: PolicyProgress,
    r: PolicyStep,
)
    requires
        svc.validate_rule(tenant_id, user_id, current_hash, password, p, r),
    ensures
        match r {
            PolicyStep::LoadPolicy { .. } => p.policy is None,
            PolicyStep::CheckBreached { .. } => p.breached is None,
            PolicyStep::VerifyCurrent { .. } => p.is_current is None,
            PolicyStep::RecentHashes { .. } => p.recent is None,
            PolicyStep::VerifyRetired { .. } => p.recent matches Some(Ok(hashes))
                && p.is_retired@.len() < hashes@.len(),
            PolicyStep::Done(_) => true,
        },
{
    if let Some(Ok(hashes)) = p.recent {
        lemma_next_comparison(password, hashes@, p.is_retired@, 0);
    }
}

proof fn lemma_compared_password(
    password: String,
    hashes: Seq<String>,
    compared: Seq<Result<bool, String>>,
    i: int,
)
    requires
        0 <= i <= compared.len(),
    ensures
        retired_step(password, hashes, compared, i) matches PolicyStep::VerifyRetired {
            password: asked,
            hash,
        } ==> asked == password && i <= compared.len() < hashes.len() && hash
            == hashes[compared.len() as int],
        !(retired_step(password, hashes, compared, i) is LoadPolicy),
        !(retired_step(password, hashes, compared, i) is CheckBreached),
        !(retired_step(password, hashes, compared, i) is VerifyCurrent),
        !(retired_step(password, hashes, compared, i) is RecentHashes),
        retired_step(password, hashes, compared, i) matches PolicyStep::Done(Ok(Err(why)))
            ==> why is Reused && exists|k: int|
            i <= k < hashes.len() && k < compared.len() && (#[trigger] compared[k]) == Ok::<
                bool,
                String,
            >(true),
        retired_step(password, hashes, compared, i) matches PolicyStep::Done(Err(e))
            ==> exists|k: int|
            i <= k < hashes.len() && k < compared.len() && (#[trigger] compared[k]) == Err::<
                bool,
                String,
            >(e),
    decreases hashes.len() - i,
{
    if i < hashes.len() {
        if i < compared.len() {
            if compared[i] == Ok::<bool, String>(false) {
                lemma_compared_password(password, hashes, compared, i + 1);
            } else {
                assert(compared[i] is Err || compared[i] == Ok::<bool, String>(true));
            }
        }
    }
}

/// Whatever is asked about a new password is asked about that password: whether it has leaked,
/// whether it is the current one, and whether it is one of the retired ones, which are compared one
/// after the other; and whose history is read is the user at hand.
pub proof fn the_password_at_hand_is_judged(
    svc: PasswordPolicyService,
    tenant_id: TenantId,
    user_id: Option<Uuid>,
    current_hash: Option<String>,
    password: String,
    p: PolicyProgress,
    r: PolicyStep,
)
    requires
        call_ensures(
            PasswordPolicyService::validate,
            (&svc, tenant_id, user_id, &current_hash, &password, &p),
            r,
        ),
    ensures
        match r {
            PolicyStep::LoadPolicy { tenant_id: asked } => asked == tenant_id,
            PolicyStep::CheckBreached { password: asked } => asked == password,
            PolicyStep::VerifyCurrent { password: asked, hash } => asked == password && current_hash
                == Some(hash),
            PolicyStep::RecentHashes { user_id: asked, limit } => user_id == Some(asked) && (
            p.policy matches Some(Ok(policy)) && limit == policy.history_count - 1),
            PolicyStep::VerifyRetired { password: asked, hash } => asked == password && (
            p.recent matches Some(Ok(hashes)) && p.is_retired@.len() < hashes@.len() && hash
                == hashes@[p.is_retired@.len() as int]),
            PolicyStep::Done(_) => true,
        },
{
    if let Some(Ok(hashes)) = p.recent {
        lemma_compared_password(password, hashes@, p.is_retired@, 0);
    }
}

/// A password is refused only for what is true of it: it is shorter than the policy allows, the list
/// of leaked passwords has it, or a comparison has found it among the former ones; and a failure is
/// that of an answer.
pub proof fn a_refused_password_breaks_the_policy(
    svc: PasswordPolicyService,
    tenant_id: TenantId,
    user_id: Option<Uuid>,
    current_hash: Option<String>,
    password: String,
    p: PolicyProgress,
    why: PasswordRejection,
)
    requires
        call_ensures(
            PasswordPolicyService::validate,
            (&svc, tenant_id, user_id, &current_hash, &password, &p),
            PolicyStep::Done(Ok(Err(why))),
        ),
    ensures
        p.policy matches Some(Ok(policy)) && match why {
            PasswordRejection::Strength(_) => password@.len() < policy.min_length,
            PasswordRejection::Breached => policy.reject_breached && svc.checks_breaches && p.breached
                == Some(Ok::<bool, String>(true)) && password@.len() >= policy.min_length,
            PasswordRejection::Reused => policy.history_count > 0 && ((current_hash is Some
                && p.is_current == Some(Ok::<bool, String>(true))) || (policy.history_count > 1
                && user_id is Some && svc.keeps_history && exists|k: int|
                0 <= k < p.is_retired@.len() && (#[trigger] p.is_retired@[k]) == Ok::<bool, String>(
                    true,
                ))),
        },
{
    if let Some(Ok(hashes)) = p.recent {
        lemma_compared_password(password, hashes@, p.is_retired@, 0);
    }
}

/// A password that is too short is refused whatever else is known; one that has leaked is refused
/// where the policy asks; and one that is the current one is refused where the policy keeps any
/// history.
pub proof fn a_bad_password_is_refused(
    svc: PasswordPolicyService,
    tenant_id: TenantId,
    user_id: Option<Uuid>,
    current_hash: Option<String>,
    password: String,
    p: PolicyProgress,
    policy: PasswordPolicy,
    r: PolicyStep,
)
    requires
        call_ensures(
            PasswordPolicyService::validate,
            (&svc, tenant_id, user_id, &current_hash, &password, &p),
            r,
        ),
        p.policy == Some(Ok::<PasswordPolicy, String>(policy)),
    ensures
        password@.len() < policy.min_length ==> (r matches PolicyStep::Done(
            Ok(Err(PasswordRejection::Strength(_))),
        )),
        password@.len() >= policy.min_length && policy.reject_breached && svc.checks_breaches
            && p.breached == Some(Ok::<bool, String>(true)) ==> r == PolicyStep::Done(
            Ok(Err(PasswordRejection::Breached)),
        ),
        password@.len() >= policy.min_length && policy.reject_breached && svc.checks_breaches
            && p.breached is None ==> r is CheckBreached,
        password@.len() >= policy.min_length && !policy.reject_breached && policy.history_count > 0
            && current_hash is Some && p.is_current == Some(Ok::<bool, String>(true)) ==> r
            == PolicyStep::Done(Ok(Err(PasswordRejection::Reused))),
        password@.len() >= policy.min_length && !policy.reject_breached && policy.history_count > 0
            && current_hash is Some && p.is_current is None ==> r is VerifyCurrent,
{
}

/// A password judged without its user is judged as one is for whom there are no former passwords:
/// what comes next is what comes next where neither a user nor a current password is known.
pub proof fn without_a_user_only_the_password_counts(
    svc: PasswordPolicyService,
    tenant_id: TenantId,
    password: String,
    p: PolicyProgress,
    r: PolicyStep,
)
    ensures
        svc.validate_input_rule(tenant_id, password, p, r)
            <==> svc.validate_rule(tenant_id, None, None, password, p, r),
{
}

/// Where the password by itself is in order, judging it whole and asking only whether it was used
/// before come to the same.
pub proof fn reuse_is_the_rest_of_the_judgement(
    svc: PasswordPolicyService,
    tenant_id: TenantId,
    user_id: Option<Uuid>,
    current_hash: Option<String>,
    password: String,
    p: PolicyProgress,
    r: PolicyStep,
)
    requires
        call_ensures(
            PasswordPolicyService::validate_input,
            (&svc, tenant_id, &password, &p),
            PolicyStep::Done(Ok(Ok(()))),
        ),
        p.policy matches Some(Ok(_)),
    ensures
        svc.validate_reuse_rule(tenant_id, user_id, current_hash, password, p, r)
            <==> svc.validate_rule(tenant_id, user_id, current_hash, password, p, r),
{
}

/// What is taken down of a change is the hash that was replaced, for its user, as of now; and no
/// more former passwords are kept than a later judgement under the same policy looks at.
pub proof fn a_retired_password_is_remembered(
    svc: PasswordPolicyService,
    tenant_id: TenantId,
    user_id: Uuid,
    retired_hash: String,
    now: Timestamp,
    policy: PasswordPolicy,
    pushed: bool,
    r: RecordStep,
    current_hash: Option<String>,
    password: String,
    p: PolicyProgress,
    later: PolicyStep,
)
    requires
        PasswordPolicyService::record_rule(
            tenant_id,
            user_id,
            retired_hash,
            now,
            Some(Ok(policy)),
            pushed,
            r,
        ),
        p.policy == Some(Ok::<PasswordPolicy, String>(policy)),
        call_ensures(
            PasswordPolicyService::validate,
            (&svc, tenant_id, Some(user_id), &current_hash, &password, &p),
            later,
        ),
    ensures
        !pushed ==> (r matches RecordStep::PushHistory {
            user_id: whose,
            retired_hash: hash,
            now: at,
            retain,
        } && whose == user_id && hash == retired_hash && at == now && (
        policy.history_count > 0 ==> retain == policy.history_count - 1) && (
        policy.history_count == 0 ==> retain == 0) && (
        later matches PolicyStep::RecentHashes { user_id: asked, limit } ==> asked == whose && limit
            == retain)),
        pushed ==> r is Done,
{
    if let Some(Ok(hashes)) = p.recent {
        lemma_compared_password(password, hashes@, p.is_retired@, 0);
    }
}

} // verus!
