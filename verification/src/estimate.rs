//! Expected response size of an outbound call, and the budget that pays for it.

use vstd::prelude::*;
use crate::constants::{
    BASE_CYCLES, BASE_SUBNET_SIZE, CYCLES_PER_BYTE, DEFAULT_RESPONSE_SIZE, HEADER_SIZE_LIMIT,
    MAX_PAYLOAD_SIZE, MIN_ADJUSTED_SIZE, SUBNET_SIZE,
};

use crate::natural::{decimal_text, Natural};

verus! {

/// Number of body bytes expected in an HTTP response: positive and at most
/// `MAX_PAYLOAD_SIZE`.
#[derive(Clone, Copy, Debug, PartialEq, Eq, PartialOrd, Ord)]
pub struct ResponseSizeEstimate(u64);

/// The estimate that follows `n` when a response turned out larger than `n`:
/// twice `n`, but at least twice `MIN_ADJUSTED_SIZE` and at most
/// `MAX_PAYLOAD_SIZE`.
pub open spec fn adjusted_size(n: int) -> int {
    let floored = if n < MIN_ADJUSTED_SIZE { MIN_ADJUSTED_SIZE as int } else { n };
    if 2 * floored > MAX_PAYLOAD_SIZE {
        MAX_PAYLOAD_SIZE as int
    } else {
        2 * floored
    }
}

/// The maximum response size declared to the transport for an expected body of
/// `expected` bytes.
pub open spec fn effective_size(expected: int) -> int {
    expected + HEADER_SIZE_LIMIT
}

/// The budget supplied with a call that declares `effective` response bytes.
pub open spec fn request_cycles(effective: int) -> int {
    (BASE_CYCLES + CYCLES_PER_BYTE * (2 * effective)) * SUBNET_SIZE / (BASE_SUBNET_SIZE as int)
}

impl ResponseSizeEstimate {
    /// Whether `num_bytes` is an admissible estimate.
    pub open spec fn valid_size(num_bytes: int) -> bool {
        0 < num_bytes <= MAX_PAYLOAD_SIZE
    }

    /// The estimated number of bytes.
    pub closed spec fn bytes(self) -> int {
        self.0 as int
    }

    #[verifier::type_invariant]
    spec fn in_range(self) -> bool {
        Self::valid_size(self.0 as int)
    }

    pub fn new(num_bytes: u64) -> (estimate: Self)
        requires
            Self::valid_size(num_bytes as int),
        ensures
            estimate.bytes() == num_bytes,
    {
        Self(num_bytes)
    }

    /// Like `new`, for callers that cannot rule out an inadmissible size.
    pub fn try_new(num_bytes: u64) -> (estimate: Option<Self>)
        ensures
            estimate is Some <==> Self::valid_size(num_bytes as int),
            estimate matches Some(e) ==> e.bytes() == num_bytes,
    {
        if 0 < num_bytes && num_bytes <= MAX_PAYLOAD_SIZE {
            Some(Self(num_bytes))
        } else {
            None
        }
    }

    /// The expected number of bytes in the response body.
    pub fn get(self) -> (num_bytes: u64)
        ensures
            num_bytes == self.bytes(),
            Self::valid_size(num_bytes as int),
    {
        proof {
            use_type_invariant(&self);
        }
        self.0
    }

    /// The estimate in decimal.
    pub fn to_text(self) -> (printed: String)
        ensures
            printed@ == decimal_text(self.bytes() as nat),
    {
        proof {
            use_type_invariant(&self);
        }
        Natural::from_u64(self.0).to_text()
    }

    /// A higher estimate, for a call whose response did not fit.
    pub fn adjust(self) -> (higher: Self)
        ensures
            higher.bytes() == adjusted_size(self.bytes()),
            higher.bytes() >= self.bytes(),
    {
        proof {
            use_type_invariant(&self);
        }
        let floored: u64 = if self.0 < MIN_ADJUSTED_SIZE { MIN_ADJUSTED_SIZE } else { self.0 };
        let doubled: u64 = 2 * floored;
        if doubled > MAX_PAYLOAD_SIZE {
            Self(MAX_PAYLOAD_SIZE)
        } else {
            Self(doubled)
        }
    }
}

/// The response size declared for the relay's calls: the default body estimate
/// plus the header allowance.
pub fn get_effective_size_estimate() -> (size: u64)
    ensures
        size == effective_size(DEFAULT_RESPONSE_SIZE as int),
        size == 2304,
{
    let response_size_estimate = ResponseSizeEstimate::new(DEFAULT_RESPONSE_SIZE);
    response_size_estimate.get() + HEADER_SIZE_LIMIT
}

/// The response size declared for a call that expects `estimate` body bytes.
pub fn effective_size_of(estimate: ResponseSizeEstimate) -> (size: u64)
    ensures
        size == effective_size(estimate.bytes()),
        0 < size <= crate::constants::HTTP_MAX_SIZE,
{
    estimate.get() + HEADER_SIZE_LIMIT
}

/// The budget for a call that declares `effective_size` response bytes.
pub fn cycles_for(effective_size: u64) -> (cycles: u128)
    ensures
        cycles == request_cycles(effective_size as int),
{
    let size: u128 = effective_size as u128;
    let base_cycles: u128 = BASE_CYCLES + CYCLES_PER_BYTE * (2 * size);
    base_cycles * SUBNET_SIZE / BASE_SUBNET_SIZE
}

/// The budget supplied with each of the relay's calls.
pub fn get_req_cycles() -> (cycles: u128)
    ensures
        cycles == request_cycles(effective_size(DEFAULT_RESPONSE_SIZE as int)),
        cycles == 2_251_323_076,
{
    cycles_for(get_effective_size_estimate())
}

/// A larger declared size never costs less.
pub proof fn request_cycles_monotonic(smaller: int, larger: int)
    requires
        0 <= smaller <= larger,
    ensures
        request_cycles(smaller) <= request_cycles(larger),
{
    let a = (BASE_CYCLES + CYCLES_PER_BYTE * (2 * smaller)) * SUBNET_SIZE;
    let b = (BASE_CYCLES + CYCLES_PER_BYTE * (2 * larger)) * SUBNET_SIZE;
    assert(a <= b) by (nonlinear_arith)
        requires
            0 <= smaller <= larger,
            a == (BASE_CYCLES + CYCLES_PER_BYTE * (2 * smaller)) * SUBNET_SIZE,
            b == (BASE_CYCLES + CYCLES_PER_BYTE * (2 * larger)) * SUBNET_SIZE,
    ;
    assert(a / 13 <= b / 13) by (nonlinear_arith)
        requires
            a <= b,
    ;
}

} // verus!
