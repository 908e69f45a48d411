use vstd::prelude::*;

use crate::error::AccessError;
use crate::identity::{auth_middleware, authentication, opt_str_view, resolve_principal, token_of};
use crate::jwt::{current_timestamp, jwt_payload};
use crate::roles::RolesEnum;
use crate::users::User;

verus! {

/// Whether a principal in `role` passes a stage that requires `required`:
/// `Admin` passes every stage, any other role only its own.
pub open spec fn role_admits(role: RolesEnum, required: RolesEnum) -> bool {
    role == RolesEnum::Admin || role == required
}

/// One authorization stage: lets `current_user` through when its role passes
/// `accepted_role`, and refuses as forbidden otherwise.
pub fn role_middleware(current_user: &User, accepted_role: RolesEnum) -> (r: Result<(), AccessError>)
    ensures
        role_admits(current_user.role, accepted_role) ==> r == Ok::<(), AccessError>(()),
        !role_admits(current_user.role, accepted_role) ==> r == Err::<(), AccessError>(
            AccessError::InsufficientRole,
        ),
{
    match current_user.role {
        RolesEnum::Admin => Ok(()),
        role => {
            if role == accepted_role {
                Ok(())
            } else {
                Err(AccessError::InsufficientRole)
            }
        },
    }
}

/// Whether a principal in `role` passes every stage of `stages`.
pub open spec fn stages_admit(role: RolesEnum, stages: Seq<RolesEnum>) -> bool {
    forall|i: int| 0 <= i < stages.len() ==> role_admits(role, #[trigger] stages[i])
}

/// Runs the stacked authorization stages in order; a request must pass all.
pub fn authorize(current_user: &User, stages: &Vec<RolesEnum>) -> (r: Result<(), AccessError>)
    ensures
        stages_admit(current_user.role, stages@) ==> r == Ok::<(), AccessError>(()),
        !stages_admit(current_user.role, stages@) ==> r == Err::<(), AccessError>(
            AccessError::InsufficientRole,
        ),
{
    let mut i: usize = 0;
    while i < stages.len()
        invariant
            i <= stages@.len(),
            forall|k: int| 0 <= k < i ==> role_admits(current_user.role, #[trigger] stages@[k]),
        decreases stages@.len() - i,
    {
        if role_middleware(current_user, stages[i]).is_err() {
            return Err(AccessError::InsufficientRole);
        }
        i = i + 1;
    }
    Ok(())
}

/// What guards a branch of the route tree. A protected branch runs the
/// authentication stage first and then each authorization stage in order,
/// so no authorization stage runs without a principal.
pub enum BranchPolicy {
    Public,
    Protected { stages: Vec<RolesEnum> },
}

/// The branches of the route tree.
#[derive(Clone, Copy, Debug, PartialEq, Eq, Structural)]
pub enum Branch {
    /// Login, registration, files, and the public restaurant listings.
    Open,
    /// Endpoints for any signed-in account: own profile, deletions, own menus.
    SignedIn,
    /// Restaurant creation and the owner's own restaurants.
    RestaurantOwners,
    /// Account listing and the owner approval workflow.
    UsersManagement,
}

pub open spec fn branch_stages(branch: Branch) -> Option<Seq<RolesEnum>> {
    match branch {
        Branch::Open => None,
        Branch::SignedIn => Some(seq![]),
        Branch::RestaurantOwners => Some(seq![RolesEnum::RestaurantOwner]),
        Branch::UsersManagement => Some(seq![RolesEnum::Admin]),
    }
}

pub open spec fn policy_stages(policy: BranchPolicy) -> Option<Seq<RolesEnum>> {
    match policy {
        BranchPolicy::Public => None,
        BranchPolicy::Protected { stages } => Some(stages@),
    }
}

/// The guard of each branch. The account management branch is guarded by a
/// single `Admin` stage: a `User` stage stacked on it would let through
/// exactly the same principals.
pub fn branch_policy(branch: Branch) -> (r: BranchPolicy)
    ensures
        policy_stages(r) == branch_stages(branch),
{
    match branch {
        Branch::Open => BranchPolicy::Public,
        Branch::SignedIn => BranchPolicy::Protected { stages: Vec::new() },
        Branch::RestaurantOwners => {
            let r = BranchPolicy::Protected { stages: vec![RolesEnum::RestaurantOwner] };
            assert(policy_stages(r) =~= branch_stages(branch));
            r
        },
        Branch::UsersManagement => {
            let r = BranchPolicy::Protected { stages: vec![RolesEnum::Admin] };
            assert(policy_stages(r) =~= branch_stages(branch));
            r
        },
    }
}

/// The first step of a request on a branch.
pub enum Admission {
    /// The branch is public: the handler runs without a principal.
    Open,
    /// The token verified: look up the account with this id.
    Lookup(i32),
    /// The request is refused.
    Rejected(AccessError),
}

pub open spec fn admission(
    stages: Option<Seq<RolesEnum>>,
    header: Option<Seq<char>>,
    secret: Seq<char>,
    now: int,
) -> Admission {
    match stages {
        None => Admission::Open,
        Some(_) => match authentication(header, secret, now) {
            Ok(id) => Admission::Lookup(id),
            Err(e) => Admission::Rejected(e),
        },
    }
}

/// Starts a request on a branch guarded by `policy`, with the value of its
/// `Authorization` header, at time `now`.
pub fn begin_admission(policy: &BranchPolicy, header: Option<&str>, secret: &String, now: i64) -> (r:
    Admission)
    ensures
        r == admission(policy_stages(*policy), opt_str_view(header), secret@, now as int),
{
    match policy {
        BranchPolicy::Public => Admission::Open,
        BranchPolicy::Protected { .. } => match auth_middleware(header, secret, now) {
            Ok(id) => Admission::Lookup(id),
            Err(e) => Admission::Rejected(e),
        },
    }
}

/// Starts a request on a branch guarded by `policy` at the current time.
pub fn admit_request(policy: &BranchPolicy, header: Option<&str>, secret: &String) -> (r: Admission)
    ensures
        exists|now: i64|
            r == admission(policy_stages(*policy), opt_str_view(header), secret@, now as int),
{
    let now = current_timestamp();
    let r = begin_admission(policy, header, secret, now);
    assert(r == admission(policy_stages(*policy), opt_str_view(header), secret@, now as int));
    r
}

pub open spec fn completion(stages: Seq<RolesEnum>, found: Option<User>) -> Result<
    User,
    AccessError,
> {
    match found {
        None => Err(AccessError::InvalidCredential),
        Some(u) => if stages_admit(u.role, stages) {
            Ok(u)
        } else {
            Err(AccessError::InsufficientRole)
        },
    }
}

/// Finishes a request on a protected branch once the account of the token's
/// subject has been looked up: the principal, if it passes every stage. The
/// stages read the role of the account as stored now, not the role that the
/// token carried when it was issued.
pub fn complete_admission(stages: &Vec<RolesEnum>, found: Option<User>) -> (r: Result<
    User,
    AccessError,
>)
    ensures
        r == completion(stages@, found),
{
    let user = match resolve_principal(found) {
        Ok(u) => u,
        Err(e) => return Err(e),
    };
    match authorize(&user, stages) {
        Ok(()) => Ok(user),
        Err(e) => Err(e),
    }
}

/// A request that carries no `Authorization` header on a protected branch is
/// refused as missing its token, at any time and under any secret.
pub proof fn lemma_missing_header_refused(stages: Seq<RolesEnum>, secret: Seq<char>, now: int)
    ensures
        admission(Some(stages), None, secret, now) == Admission::Rejected(
            AccessError::MissingCredential,
        ),
{
}

/// A bearer token that does not verify under the server's secret is refused
/// as an invalid token, whatever claims it carries.
pub proof fn lemma_unverified_token_refused(
    stages: Seq<RolesEnum>,
    value: Seq<char>,
    secret: Seq<char>,
    now: int,
)
    requires
        token_of(value) matches Some(token) && jwt_payload(token, secret) is None,
    ensures
        admission(Some(stages), Some(value), secret, now) == Admission::Rejected(
            AccessError::InvalidCredential,
        ),
{
}

/// A token whose expiry is in the past is refused as an invalid token, even
/// though its signature checks out.
pub proof fn lemma_expired_token_refused(
    stages: Seq<RolesEnum>,
    value: Seq<char>,
    secret: Seq<char>,
    now: int,
)
    requires
        token_of(value) matches Some(token) && jwt_payload(token, secret) matches Some(c) && c.exp
            < now,
    ensures
        admission(Some(stages), Some(value), secret, now) == Admission::Rejected(
            AccessError::InvalidCredential,
        ),
{
}

/// A valid token whose subject has no account is refused as an invalid token
/// (not as not found).
pub proof fn lemma_unknown_subject_refused(
    stages: Seq<RolesEnum>,
    value: Seq<char>,
    secret: Seq<char>,
    now: int,
)
    requires
        admission(Some(stages), Some(value), secret, now) is Lookup,
    ensures
        completion(stages, None) == Err::<User, AccessError>(AccessError::InvalidCredential),
{
}

/// An `Admin` principal passes every stack of authorization stages.
pub proof fn lemma_admin_passes_every_stage(stages: Seq<RolesEnum>)
    ensures
        stages_admit(RolesEnum::Admin, stages),
{
}

/// A `User` principal passes a stage only where the stage requires `User`.
pub proof fn lemma_user_passes_only_user_stages(required: RolesEnum)
    ensures
        role_admits(RolesEnum::User, required) <==> required == RolesEnum::User,
{
}

/// Stacking a `User` stage on an `Admin` stage admits exactly the principals
/// that the `Admin` stage admits alone.
pub proof fn lemma_stacked_user_stage_is_redundant(role: RolesEnum)
    ensures
        stages_admit(role, seq![RolesEnum::User, RolesEnum::Admin]) <==> stages_admit(
            role,
            seq![RolesEnum::Admin],
        ),
{
    let both = seq![RolesEnum::User, RolesEnum::Admin];
    let admin = seq![RolesEnum::Admin];
    if stages_admit(role, both) {
        assert(role_admits(role, both[1]));
    }
    if stages_admit(role, admin) {
        assert(role_admits(role, admin[0]));
    }
}

} // verus!
