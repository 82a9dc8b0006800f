//! What a probe finds out.

use crate::primitives::{Amount, PublicKey, ShortChannelIdDir};
use vstd::prelude::*;

verus! {

/// The failures of a probe that are understood.
#[derive(Debug, Clone, Copy, PartialEq, Eq, Structural)]
pub enum ErrorCode {
    UnknownNextPeer,
    IncorrectOrUnknownPaymentDetails,
    TemporaryChannelFailure,
    FeeInsufficient,
}

impl ErrorCode {
    /// The number under which the failure travels.
    pub open spec fn spec_code(self) -> u64 {
        match self {
            ErrorCode::UnknownNextPeer => 0x400a,
            ErrorCode::IncorrectOrUnknownPaymentDetails => 0x400f,
            ErrorCode::TemporaryChannelFailure => 0x1007,
            ErrorCode::FeeInsufficient => 0x100c,
        }
    }

    /// The failure that travels under the number `n`.
    pub open spec fn of_code(n: u64) -> Option<ErrorCode> {
        if n == 0x400a {
            Some(ErrorCode::UnknownNextPeer)
        } else if n == 0x400f {
            Some(ErrorCode::IncorrectOrUnknownPaymentDetails)
        } else if n == 0x1007 {
            Some(ErrorCode::TemporaryChannelFailure)
        } else if n == 0x100c {
            Some(ErrorCode::FeeInsufficient)
        } else {
            None
        }
    }

    /// The name of the failure.
    pub open spec fn spec_name(self) -> Seq<char> {
        match self {
            ErrorCode::UnknownNextPeer => "UNKNOWN_NEXT_PEER"@,
            ErrorCode::IncorrectOrUnknownPaymentDetails => "INCORRECT_OR_UNKNOWN_PAYMENT_DETAILS"@,
            ErrorCode::TemporaryChannelFailure => "TEMPORARY_CHANNEL_FAILURE"@,
            ErrorCode::FeeInsufficient => "FEE_INSUFFICIENT"@,
        }
    }

    /// The failure shows that the probe came as far as the destination.
    pub open spec fn spec_reached(self) -> bool {
        self is UnknownNextPeer || self is IncorrectOrUnknownPaymentDetails
    }

    /// The failure that travels under the number `n`.
    pub fn from_u64(n: u64) -> (r: Option<ErrorCode>)
        ensures
            r == ErrorCode::of_code(n),
    {
        if n == 0x400a {
            Some(ErrorCode::UnknownNextPeer)
        } else if n == 0x400f {
            Some(ErrorCode::IncorrectOrUnknownPaymentDetails)
        } else if n == 0x1007 {
            Some(ErrorCode::TemporaryChannelFailure)
        } else if n == 0x100c {
            Some(ErrorCode::FeeInsufficient)
        } else {
            None
        }
    }

    /// The number under which the failure travels.
    pub fn to_u64(&self) -> (r: u64)
        ensures
            r == self.spec_code(),
    {
        match self {
            ErrorCode::UnknownNextPeer => 0x400a,
            ErrorCode::IncorrectOrUnknownPaymentDetails => 0x400f,
            ErrorCode::TemporaryChannelFailure => 0x1007,
            ErrorCode::FeeInsufficient => 0x100c,
        }
    }

    /// The name of the failure.
    pub fn to_string(&self) -> (r: String)
        ensures
            r@ == self.spec_name(),
    {
        let s = match self {
            ErrorCode::UnknownNextPeer => "UNKNOWN_NEXT_PEER",
            ErrorCode::IncorrectOrUnknownPaymentDetails => "INCORRECT_OR_UNKNOWN_PAYMENT_DETAILS",
            ErrorCode::TemporaryChannelFailure => "TEMPORARY_CHANNEL_FAILURE",
            ErrorCode::FeeInsufficient => "FEE_INSUFFICIENT",
        };
        s.to_string()
    }

    /// Whether the failure shows that the probe came as far as the destination.
    pub fn reached(&self) -> (r: bool)
        ensures
            r == self.spec_reached(),
    {
        match self {
            ErrorCode::UnknownNextPeer => true,
            ErrorCode::IncorrectOrUnknownPaymentDetails => true,
            _ => false,
        }
    }
}

/// A failure is read back from the number under which it travels.
pub proof fn code_reads_back(e: ErrorCode)
    ensures
        ErrorCode::of_code(e.spec_code()) == Some(e),
{
}

/// A number that is read as a failure is the one under which that failure travels.
pub proof fn code_writes_back(n: u64)
    ensures
        ErrorCode::of_code(n) matches Some(e) ==> e.spec_code() == n,
{
}

/// A channel that a probe went through, with the amount that left it.
#[derive(Debug, Clone, Copy)]
pub struct RouteHop {
    pub short_channel_id_dir: ShortChannelIdDir,
    pub next_nodeid: PublicKey,
    pub amount: Amount,
}

/// The path of a probe, and where and why it failed.
#[derive(Debug)]
pub struct Route {
    pub path: Vec<RouteHop>,
    pub failcode: ErrorCode,
    pub erring_index: usize,
}

/// One probe that was sent and came back.
#[derive(Debug)]
pub struct ProbeAttempt {
    pub payment_hash: [u8; 32],
    pub destination: PublicKey,
    pub amount: Amount,
    pub route: Route,
}

/// Whether a destination was reached.
#[derive(Debug, Clone, Copy, PartialEq, Eq, Structural)]
pub enum ProbeStatus {
    Success,
    Failed,
}

/// The outcome of probing a destination, with all the routes that were tried.
#[derive(Debug)]
pub struct ProbeResult {
    pub payment_hash: [u8; 32],
    pub destination: PublicKey,
    pub amount: Amount,
    pub routes: Vec<Route>,
    pub status: ProbeStatus,
    pub message: Option<String>,
}

/// A [`Route`] as mathematics sees it.
pub struct RouteModel {
    pub path: Seq<RouteHop>,
    pub failcode: ErrorCode,
    pub erring_index: nat,
}

/// A [`ProbeAttempt`] as mathematics sees it.
pub struct AttemptModel {
    pub payment_hash: Seq<u8>,
    pub destination: PublicKey,
    pub amount: Amount,
    pub route: RouteModel,
}

/// A [`ProbeResult`] as mathematics sees it.
#[verifier::ext_equal]
pub struct ResultModel {
    pub payment_hash: Seq<u8>,
    pub destination: PublicKey,
    pub amount: Amount,
    pub routes: Seq<RouteModel>,
    pub status: ProbeStatus,
    pub message: Option<Seq<char>>,
}

impl View for Route {
    type V = RouteModel;

    open spec fn view(&self) -> RouteModel {
        RouteModel {
            path: self.path@,
            failcode: self.failcode,
            erring_index: self.erring_index as nat,
        }
    }
}

impl View for ProbeAttempt {
    type V = AttemptModel;

    open spec fn view(&self) -> AttemptModel {
        AttemptModel {
            payment_hash: self.payment_hash@,
            destination: self.destination,
            amount: self.amount,
            route: self.route@,
        }
    }
}

/// What a list of routes is.
pub open spec fn routes_model(routes: Seq<Route>) -> Seq<RouteModel> {
    routes.map_values(|r: Route| r@)
}

impl View for ProbeResult {
    type V = ResultModel;

    open spec fn view(&self) -> ResultModel {
        ResultModel {
            payment_hash: self.payment_hash@,
            destination: self.destination,
            amount: self.amount,
            routes: routes_model(self.routes@),
            status: self.status,
            message: match self.message {
                Some(m) => Some(m@),
                None => None,
            },
        }
    }
}

impl Clone for Route {
    fn clone(&self) -> (r: Route)
        ensures
            r@ == self@,
    {
        let path = self.path.clone();
        proof {
            assert(path@ =~= self.path@);
        }
        Route { path, failcode: self.failcode, erring_index: self.erring_index }
    }
}

/// A number is read as a failure if and only if it is one of the four that are understood,
/// and each is read as its own failure.
pub proof fn four_numbers_are_read(n: u64, r: Option<ErrorCode>)
    requires
        call_ensures(ErrorCode::from_u64, (n,), r),
    ensures
        r is Some <==> n == 0x400a || n == 0x400f || n == 0x1007 || n == 0x100c,
        r == Some(ErrorCode::UnknownNextPeer) <==> n == 0x400a,
        r == Some(ErrorCode::IncorrectOrUnknownPaymentDetails) <==> n == 0x400f,
        r == Some(ErrorCode::TemporaryChannelFailure) <==> n == 0x1007,
        r == Some(ErrorCode::FeeInsufficient) <==> n == 0x100c,
{
}

/// What is read from a number is written as that number again, and what is written is read
/// as the same failure.
pub proof fn numbers_are_written_as_read(e: ErrorCode, n: u64, read: Option<ErrorCode>)
    requires
        call_ensures(ErrorCode::to_u64, (&e,), n),
        call_ensures(ErrorCode::from_u64, (n,), read),
    ensures
        read == Some(e),
{
}

/// The probe came as far as the destination exactly when the number of the failure has the
/// bit of a failure that lasts.
pub proof fn lasting_failures_reach(e: ErrorCode, n: u64, r: bool)
    requires
        call_ensures(ErrorCode::to_u64, (&e,), n),
        call_ensures(ErrorCode::reached, (&e,), r),
    ensures
        r <==> n >= 0x4000,
{
}

/// Every failure has a name of its own.
pub proof fn failures_have_names(e: ErrorCode, r: String)
    requires
        call_ensures(ErrorCode::to_string, (&e,), r),
    ensures
        match e {
            ErrorCode::UnknownNextPeer => r@ == "UNKNOWN_NEXT_PEER"@,
            ErrorCode::IncorrectOrUnknownPaymentDetails => r@
                == "INCORRECT_OR_UNKNOWN_PAYMENT_DETAILS"@,
            ErrorCode::TemporaryChannelFailure => r@ == "TEMPORARY_CHANNEL_FAILURE"@,
            ErrorCode::FeeInsufficient => r@ == "FEE_INSUFFICIENT"@,
        },
{
}

/// A copy of a route has the same hops, failure and place of failure.
pub proof fn copies_of_routes_agree(route: Route, r: Route)
    requires
        call_ensures(Route::clone, (&route,), r),
    ensures
        r.path@ == route.path@,
        r.failcode == route.failcode,
        r.erring_index == route.erring_index,
{
}

/// What mathematics sees of an attempt tells all of it.
pub proof fn attempt_is_told_by_its_view(a: ProbeAttempt)
    ensures
        a@.payment_hash == a.payment_hash@,
        a@.destination == a.destination,
        a@.amount == a.amount,
        a@.route.path == a.route.path@,
        a@.route.failcode == a.route.failcode,
        a@.route.erring_index == a.route.erring_index,
{
}

/// What mathematics sees of an outcome tells all of it.
pub proof fn outcome_is_told_by_its_view(r: ProbeResult)
    ensures
        r@.payment_hash == r.payment_hash@,
        r@.destination == r.destination,
        r@.amount == r.amount,
        r@.status == r.status,
        r@.message is Some <==> r.message is Some,
        r.message matches Some(m) ==> r@.message == Some(m@),
        r@.routes.len() == r.routes@.len(),
        forall|i: int|
            0 <= i < r.routes@.len() ==> {
                &&& (#[trigger] r@.routes[i]).path == r.routes@[i].path@
                &&& r@.routes[i].failcode == r.routes@[i].failcode
                &&& r@.routes[i].erring_index == r.routes@[i].erring_index
            },
{
}

} // verus!
