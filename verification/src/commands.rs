//! The commands that the node offers its user.

use crate::error::{Error, ErrorModel};
use crate::json;
use crate::primitives;
use crate::primitives::{Amount, FromJson, PublicKey, SecretKey};
use crate::results::{ProbeResult, ProbeStatus, ResultModel};
use crate::testpayment;
use crate::testpayment::{Currency, TestPayment, LAST_TIMESTAMP};
use crate::text::join;
use rand::rngs::StdRng;
use rand::seq::IndexedRandom;
use serde_json::Value;
use vstd::prelude::*;

verus! {

/// `rand::rngs::StdRng`, a random number generator.
#[verifier::external_type_specification]
#[verifier::external_body]
pub struct ExStdRng(rand::rngs::StdRng);

/// What a command is told of a payment.
#[derive(Debug, Clone, Copy)]
pub struct PaymentArgs {
    pub amount_msat: u64,
    pub destination: PublicKey,
}

/// What a command is told of payments through the network.
#[derive(Debug, Clone, Copy)]
pub struct NetworkArgs {
    pub amount_msat: u64,
    pub num_destinations: u64,
}

/// Puts `context` in front of why something failed.
fn explain<T>(r: Result<T, Error>, context: &str) -> (explained: Result<T, Error>)
    ensures
        match (r, explained) {
            (Ok(t), Ok(u)) => t == u,
            (Err(e), Err(f)) => f@ == ErrorModel::Other(context@ + e@.text()),
            _ => false,
        },
{
    match r {
        Ok(t) => Ok(t),
        Err(e) => Err(Error::caused(context, e.to_string().as_str())),
    }
}

/// The amount that a JSON value names.
pub open spec fn named_amount(args: Value) -> Option<u64> {
    json::json_as_u64(json::json_member(args, "amount_msat"@))
}

/// The text under which a JSON value names a destination.
pub open spec fn named_destination(args: Value) -> Option<Seq<char>> {
    json::json_as_str(json::json_member(args, "destination"@))
}

/// The number of destinations that a JSON value names.
pub open spec fn named_count(args: Value) -> Option<u64> {
    json::json_as_u64(json::json_member(args, "num_destinations"@))
}

/// The payment that an amount and the text of a destination name, or why they name none.
pub open spec fn named_payment(amount_msat: Option<u64>, destination: Option<Seq<char>>) -> Result<
    (u64, Seq<u8>),
    Seq<char>,
> {
    match amount_msat {
        None => Err("Missing mandatory field amount_msat"@),
        Some(amount) => match primitives::parsed_key(destination) {
            Ok(key) => Ok((amount, key)),
            Err(why) => Err("failed to get mandatory field destination: "@ + why),
        },
    }
}

/// The payment that an amount and a destination name, or why they name none.
pub fn payment_args(amount_msat: Option<u64>, destination: Result<PublicKey, Error>) -> (r: Result<
    PaymentArgs,
    Error,
>)
    ensures
        match (amount_msat, destination) {
            (None, _) => r matches Err(e) && e@ == ErrorModel::Other(
                "Missing mandatory field amount_msat"@,
            ),
            (Some(_), Err(cause)) => r matches Err(e) && e@ == ErrorModel::Other(
                "failed to get mandatory field destination: "@ + cause@.text(),
            ),
            (Some(amount), Ok(key)) => r == Ok::<PaymentArgs, Error>(
                PaymentArgs { amount_msat: amount, destination: key },
            ),
        },
{
    match amount_msat {
        None => Err(Error::other("Missing mandatory field amount_msat")),
        Some(amount_msat) => match explain(
            destination,
            "failed to get mandatory field destination: ",
        ) {
            Ok(destination) => Ok(PaymentArgs { amount_msat, destination }),
            Err(e) => Err(e),
        },
    }
}

/// `r` is the payment that `args` name, or says why they name none.
pub open spec fn names_payment(args: Value, r: Result<PaymentArgs, Error>) -> bool {
    match named_payment(named_amount(args), named_destination(args)) {
        Ok((amount, key)) => r matches Ok(p) && p.amount_msat == amount && p.destination@ == key,
        Err(why) => r matches Err(e) && e@ == ErrorModel::Other(why),
    }
}

/// Reads the payment that the arguments of a command name.
pub fn read_payment_args(args: &Value) -> (r: Result<PaymentArgs, Error>)
    ensures
        names_payment(*args, r),
{
    let amount_msat = json::as_u64(json::member(args, "amount_msat"));
    let destination = PublicKey::from_value(json::member(args, "destination"));
    payment_args(amount_msat, destination)
}

/// The amount and the number of destinations, if the amount is told. The number of
/// destinations is ten if it is not told.
pub fn network_args(amount_msat: Option<u64>, num_destinations: Option<u64>) -> (r: Result<
    NetworkArgs,
    Error,
>)
    ensures
        match amount_msat {
            None => r matches Err(e) && e@ == ErrorModel::Other(
                "Missing mandatory field amount_msat"@,
            ),
            Some(amount) => r matches Ok(a) && a.amount_msat == amount && a.num_destinations == (
            match num_destinations {
                Some(n) => n,
                None => 10,
            }),
        },
{
    match amount_msat {
        None => Err(Error::other("Missing mandatory field amount_msat")),
        Some(amount_msat) => Ok(
            NetworkArgs { amount_msat, num_destinations: num_destinations.unwrap_or(10) },
        ),
    }
}

/// Reads what the arguments of a command tell of payments through the network.
pub fn read_network_args(args: &Value) -> (r: Result<NetworkArgs, Error>)
    ensures
        match named_amount(*args) {
            None => r matches Err(e) && e@ == ErrorModel::Other(
                "Missing mandatory field amount_msat"@,
            ),
            Some(amount) => r matches Ok(a) && a.amount_msat == amount && a.num_destinations == (
            match named_count(*args) {
                Some(n) => n,
                None => 10,
            }),
        },
{
    let amount_msat = json::as_u64(json::member(args, "amount_msat"));
    let num_destinations = json::as_u64(json::member(args, "num_destinations"));
    network_args(amount_msat, num_destinations)
}

/// The invoice of a payment, if there is a payment.
pub fn invoice_of(payment: Result<TestPayment, Error>, currency: Currency, timestamp: u64) -> (r:
    Result<String, Error>)
    requires
        timestamp <= LAST_TIMESTAMP,
    ensures
        match payment {
            Err(cause) => r matches Err(e) && e@ == ErrorModel::Other(
                "failed to create test_payment: "@ + cause@.text(),
            ),
            Ok(t) => match t.spec_invoice(currency, timestamp) {
                Ok(expected) => r matches Ok(text) && text@ == expected && testpayment::asks_for(
                    text@,
                    currency.spec_prefix(),
                    t.amount_msat,
                ),
                Err(why) => r matches Err(e) && e@ == ErrorModel::Other(
                    "failed to create invoice: "@ + why,
                ),
            },
        },
{
    let payment = match explain(payment, "failed to create test_payment: ") {
        Ok(payment) => payment,
        Err(e) => {
            return Err(e);
        },
    };
    explain(payment.get_invoice(currency, timestamp), "failed to create invoice: ")
}

/// `text` is the invoice of a payment that tests how `amount_msat` get to `destination`, and
/// to the key `private_key` behind it.
pub open spec fn is_test_invoice(
    text: Seq<char>,
    amount_msat: u64,
    private_key: SecretKey,
    destination: Seq<u8>,
    currency: Currency,
    timestamp: u64,
) -> bool {
    exists|t: TestPayment, key: PublicKey| #[trigger]
        t.tests(amount_msat, private_key, key) && key@ == destination && t.spec_invoice(
            currency,
            timestamp,
        ) == Ok::<Seq<char>, Seq<char>>(text)
}

/// The command "testinvoice": the invoice of a new payment that `args` name.
pub fn json_testinvoice(
    args: &Value,
    private_key: SecretKey,
    currency: Currency,
    timestamp: u64,
) -> (r: Result<String, Error>)
    requires
        timestamp <= LAST_TIMESTAMP,
    ensures
        match named_payment(named_amount(*args), named_destination(*args)) {
            Err(why) => r matches Err(e) && e@ == ErrorModel::Other(why),
            Ok((amount, key)) => match r {
                Ok(text) => amount * 10 <= u64::MAX && testpayment::asks_for(
                    text@,
                    currency.spec_prefix(),
                    amount,
                ) && is_test_invoice(
                    text@,
                    amount,
                    private_key,
                    key,
                    currency,
                    timestamp,
                ),
                Err(e) => {
                    ||| amount * 10 > u64::MAX && e@ == ErrorModel::Other(
                        "failed to create invoice: "@ + testpayment::amount_too_large(),
                    )
                    ||| exists|cause: ErrorModel|
                        e@ == ErrorModel::Other(
                            "failed to create test_payment: "@ + #[trigger] cause.text(),
                        ) && testpayment::is_draw_failure(cause)
                },
            },
        },
{
    match read_payment_args(args) {
        Ok(p) => {
            let payment = TestPayment::new(p.amount_msat, private_key, p.destination);
            let ghost made = payment;
            let r = invoice_of(payment, currency, timestamp);
            proof {
                match made {
                    Ok(t) => {
                        assert(t.tests(p.amount_msat, private_key, p.destination));
                    },
                    Err(cause) => {
                        assert(testpayment::is_draw_failure(cause@));
                    },
                }
            }
            r
        },
        Err(e) => Err(e),
    }
}

/// The commands "testpayment" and "testpayment-loop", before the first probe: a new payment
/// that `args` name.
pub fn json_testpayment(args: &Value, private_key: SecretKey) -> (r: Result<TestPayment, Error>)
    ensures
        match named_payment(named_amount(*args), named_destination(*args)) {
            Err(why) => r matches Err(e) && e@ == ErrorModel::Other(why),
            Ok((amount, key)) => match r {
                Ok(t) => {
                    &&& t.tests(amount, private_key, t.route_hint.src_node_id)
                    &&& t.route_hint.src_node_id@ == key
                },
                Err(e) => exists|cause: ErrorModel|
                    e@ == ErrorModel::Other(
                        "failed to create a test payment: "@ + #[trigger] cause.text(),
                    ) && testpayment::is_draw_failure(cause),
            },
        },
{
    match read_payment_args(args) {
        Ok(p) => {
            let payment = TestPayment::new(p.amount_msat, private_key, p.destination);
            explain(payment, "failed to create a test payment: ")
        },
        Err(e) => Err(e),
    }
}

/// The outcome for a destination to which no payment could be made.
pub open spec fn unmade(destination: PublicKey, amount_msat: u64, cause: ErrorModel) -> ResultModel {
    ResultModel {
        payment_hash: Seq::new(32, |i: int| 0u8),
        destination,
        amount: Amount { msat: amount_msat },
        routes: seq![],
        status: ProbeStatus::Failed,
        message: Some("failed to create a test payment: "@ + cause.text()),
    }
}

/// The payment with which a destination is to be probed, or the outcome if there is none.
pub fn payment_or_outcome(
    payment: Result<TestPayment, Error>,
    amount_msat: u64,
    destination: PublicKey,
) -> (r: Result<TestPayment, ProbeResult>)
    ensures
        match (payment, r) {
            (Ok(t), Ok(u)) => t == u,
            (Err(cause), Err(result)) => result@ == unmade(destination, amount_msat, cause@),
            _ => false,
        },
{
    match payment {
        Ok(t) => Ok(t),
        Err(cause) => {
            let message = join("failed to create a test payment: ", cause.to_string().as_str());
            let result = ProbeResult {
                payment_hash: [0u8; 32],
                destination,
                amount: Amount::from_msat(amount_msat),
                routes: Vec::new(),
                status: ProbeStatus::Failed,
                message: Some(message),
            };
            assert(result@ =~= unmade(destination, amount_msat, cause@));
            Err(result)
        },
    }
}

/// A new payment with which `destination` is to be probed, or the outcome if there is none.
pub fn network_payment(amount_msat: u64, private_key: SecretKey, destination: PublicKey) -> (r:
    Result<TestPayment, ProbeResult>)
    ensures
        match r {
            Ok(t) => t.tests(amount_msat, private_key, destination),
            Err(result) => exists|cause: ErrorModel|
                result@ == #[trigger] unmade(destination, amount_msat, cause)
                    && testpayment::is_draw_failure(cause),
        },
{
    let payment = TestPayment::new(amount_msat, private_key, destination);
    payment_or_outcome(payment, amount_msat, destination)
}

/// `picked` are the elements of `nodes` at the places `places`, all of them different.
pub open spec fn is_pick(
    nodes: Seq<PublicKey>,
    places: Seq<int>,
    picked: Seq<PublicKey>,
) -> bool {
    &&& places.no_duplicates()
    &&& places.len() == picked.len()
    &&& forall|i: int|
        0 <= i < picked.len() ==> 0 <= #[trigger] places[i] < nodes.len() && picked[i]
            == nodes[places[i]]
}

/// `picked` are `n` of `nodes`, or all of them if there are fewer. None is picked twice.
pub open spec fn is_sample(nodes: Seq<PublicKey>, n: nat, picked: Seq<PublicKey>) -> bool {
    &&& picked.len() == if n < nodes.len() {
        n
    } else {
        nodes.len()
    }
    &&& exists|places: Seq<int>| is_pick(nodes, places, picked)
}

/// Picks at random with `rand::seq::IndexedRandom::sample`. What is believed holds whatever
/// is picked: as many as were asked for, or all if there are fewer, and none twice.
#[verifier::external_body]
fn sample(rng: &mut StdRng, nodes: &Vec<PublicKey>, amount: usize) -> (r: Vec<PublicKey>)
    ensures
        is_sample(nodes@, amount as nat, r@),
{
    nodes.sample(rng, amount).copied().collect()
}

/// The destinations that are probed: `n` of `nodes`, picked at random, or all of them if
/// there are fewer.
pub fn pick_destinations(rng: &mut StdRng, nodes: &Vec<PublicKey>, n: u64) -> (r: Vec<PublicKey>)
    ensures
        is_sample(nodes@, (n as usize) as nat, r@),
{
    sample(rng, nodes, n as usize)
}

/// A payment is named by any amount and any key that was read. If one of them is missing the
/// message says which, the amount first, and why the key is.
pub proof fn arguments_name_the_payment(
    amount_msat: Option<u64>,
    destination: Result<PublicKey, Error>,
    r: Result<PaymentArgs, Error>,
)
    requires
        call_ensures(payment_args, (amount_msat, destination), r),
    ensures
        r is Ok <==> amount_msat is Some && destination is Ok,
        r matches Ok(p) ==> amount_msat == Some(p.amount_msat) && destination == Ok::<
            PublicKey,
            Error,
        >(p.destination),
        r matches Err(e) ==> {
            &&& e matches Error::Other(words)
            &&& amount_msat is None ==> words@ == "Missing mandatory field amount_msat"@
            &&& amount_msat is Some ==> (destination matches Err(Error::Other(why)) ==> words@
                == "failed to get mandatory field destination: "@ + why@)
            &&& amount_msat is Some ==> (destination matches Err(Error::NoRoutes(why)) ==> words@
                == "failed to get mandatory field destination: "@ + (
            "Could not find any routes: "@ + why@))
        },
{
}

/// A command reads the amount from the member "amount_msat" and the key from the member
/// "destination" of its arguments, and from nowhere else.
pub proof fn arguments_are_read_from_their_members(
    args: Value,
    text: Option<&str>,
    key: Result<PublicKey, Error>,
    r: Result<PaymentArgs, Error>,
)
    requires
        json::json_as_str(json::json_member(args, "destination"@)) == (match text {
            Some(t) => Some(t@),
            None => None,
        }),
        call_ensures(PublicKey::from_text, (text,), key),
        call_ensures(read_payment_args, (&args,), r),
    ensures
        ({
            let amount = json::json_as_u64(json::json_member(args, "amount_msat"@));
            &&& r is Ok <==> amount is Some && key is Ok
            &&& r matches Ok(p) ==> amount == Some(p.amount_msat) && (key matches Ok(k)
                && p.destination@ == k@)
            &&& r matches Err(e) ==> {
                &&& e matches Error::Other(words)
                &&& amount is None ==> words@ == "Missing mandatory field amount_msat"@
                &&& amount is Some ==> (key matches Err(Error::Other(why)) && words@
                    == "failed to get mandatory field destination: "@ + why@)
            }
        }),
{
}

/// The number of destinations is the one that is told, however large, and ten if none is.
pub proof fn told_number_of_destinations_counts(
    amount_msat: Option<u64>,
    num_destinations: Option<u64>,
    r: Result<NetworkArgs, Error>,
)
    requires
        call_ensures(network_args, (amount_msat, num_destinations), r),
    ensures
        r is Ok <==> amount_msat is Some,
        r matches Ok(a) ==> {
            &&& amount_msat == Some(a.amount_msat)
            &&& num_destinations matches Some(n) ==> a.num_destinations == n
            &&& num_destinations is None ==> a.num_destinations == 10
        },
        r matches Err(e) ==> (e matches Error::Other(words) && words@
            == "Missing mandatory field amount_msat"@),
{
}

/// A command reads these from the members "amount_msat" and "num_destinations" of its
/// arguments.
pub proof fn network_arguments_are_read_from_their_members(
    args: Value,
    alone: Result<NetworkArgs, Error>,
    r: Result<NetworkArgs, Error>,
)
    requires
        call_ensures(
            network_args,
            (
                json::json_as_u64(json::json_member(args, "amount_msat"@)),
                json::json_as_u64(json::json_member(args, "num_destinations"@)),
            ),
            alone,
        ),
        call_ensures(read_network_args, (&args,), r),
    ensures
        alone is Ok <==> r is Ok,
        alone matches Ok(a) ==> r == Ok::<NetworkArgs, Error>(a),
        alone matches Err(Error::Other(words)) ==> (r matches Err(Error::Other(same)) && words@
            == same@),
{
}

/// The invoice of a payment that was made is that payment's invoice. Otherwise the message
/// says at which of the two it failed, and why.
pub proof fn invoice_command_gives_the_invoice(
    payment: Result<TestPayment, Error>,
    currency: Currency,
    timestamp: u64,
    invoice: Result<String, Error>,
    r: Result<String, Error>,
)
    requires
        call_ensures(invoice_of, (payment, currency, timestamp), r),
        payment matches Ok(t) ==> call_ensures(
            TestPayment::get_invoice,
            (&t, currency, timestamp),
            invoice,
        ),
    ensures
        match payment {
            Ok(_) => match invoice {
                Ok(text) => r matches Ok(same) && same@ == text@,
                Err(Error::Other(why)) => r matches Err(Error::Other(words)) && words@
                    == "failed to create invoice: "@ + why@,
                Err(Error::NoRoutes(_)) => false,
            },
            Err(Error::Other(why)) => r matches Err(Error::Other(words)) && words@
                == "failed to create test_payment: "@ + why@,
            Err(Error::NoRoutes(why)) => r matches Err(Error::Other(words)) && words@
                == "failed to create test_payment: "@ + ("Could not find any routes: "@ + why@),
        },
{
}

/// The invoice that "testinvoice" answers with asks for exactly the amount that was named,
/// in millisatoshi, as its beginning tells. It is dated as told, and its hint leads from the
/// named destination, for free and with 144 blocks, to the key behind it, which signs it.
/// The payment hash is marked.
pub proof fn testinvoice_asks_for_the_named_amount(
    args: Value,
    private_key: SecretKey,
    currency: Currency,
    timestamp: u64,
    prefix: &'static str,
    named: Result<PaymentArgs, Error>,
    text: String,
)
    requires
        call_ensures(read_payment_args, (&args,), named),
        call_ensures(Currency::prefix, (&currency,), prefix),
        call_ensures(json_testinvoice, (&args, private_key, currency, timestamp), Ok(text)),
    ensures
        named is Ok,
        named->Ok_0.amount_msat * 10 <= u64::MAX,
        exists|n: nat|
            #![trigger crate::text::decimal(n)]
            {
                let amount = named->Ok_0.amount_msat;
                let head = "ln"@ + prefix@ + crate::text::decimal(n);
                let unit = text@[head.len() as int];
                &&& text@.len() >= head.len() + 2
                &&& text@.take(head.len() as int) == head
                &&& text@[head.len() as int + 1] == '1'
                &&& (unit == 'm' && n * 1_000_000_000 == amount * 10) || (unit == 'u' && n
                    * 1_000_000 == amount * 10) || (unit == 'n' && n * 1_000 == amount * 10) || (
                unit == 'p' && n == amount * 10)
            },
        exists|hash: Seq<u8>, secret: Seq<u8>|
            text@ == #[trigger] testpayment::bolt11_text(
                prefix@,
                hash,
                named->Ok_0.amount_msat,
                "Test invoice"@,
                timestamp,
                18,
                secret,
                named->Ok_0.destination@,
                0x100_0001_0001,
                0,
                0,
                144,
                None,
                None,
                private_key@,
            ) && hash.len() == 32 && forall|i: int| 0 <= i < 16 ==> #[trigger] hash[i] == 0xaa,
{
    let amount = named->Ok_0.amount_msat;
    assert(testpayment::asks_for(text@, prefix@, amount));
    let (t, key) = choose|t: TestPayment, key: PublicKey| #[trigger]
        t.tests(amount, private_key, key) && key@ == named->Ok_0.destination@ && t.spec_invoice(
            currency,
            timestamp,
        ) == Ok::<Seq<char>, Seq<char>>(text@);
    assert(text@ == testpayment::bolt11_text(
        prefix@,
        t.payment_hash@,
        amount,
        "Test invoice"@,
        timestamp,
        18,
        t.payment_secret@,
        named->Ok_0.destination@,
        0x100_0001_0001,
        0,
        0,
        144,
        None,
        None,
        private_key@,
    ));
}

/// "testinvoice" is refused for its arguments with their message. With good arguments it
/// fails only for an amount that no invoice can hold, or for want of random bytes.
pub proof fn testinvoice_says_why_it_fails(
    args: Value,
    private_key: SecretKey,
    currency: Currency,
    timestamp: u64,
    named: Result<PaymentArgs, Error>,
    e: Error,
)
    requires
        call_ensures(read_payment_args, (&args,), named),
        call_ensures(json_testinvoice, (&args, private_key, currency, timestamp), Err(e)),
    ensures
        e matches Error::Other(words) && match named {
            Err(Error::Other(why)) => words@ == why@,
            Err(Error::NoRoutes(_)) => false,
            Ok(p) => {
                ||| p.amount_msat * 10 > u64::MAX && words@ == "failed to create invoice: "@
                    + "The supplied millisatoshi amount was greater than the total bitcoin supply"@
                ||| exists|cause: Seq<char>|
                    words@ == "failed to create test_payment: "@ + #[trigger] (
                    "failed creating payment_secret: "@ + cause) || words@
                        == "failed to create test_payment: "@ + (
                    "failed creating payment_hash: "@ + cause)
            },
        },
{
    if let Ok(p) = named {
        if !(p.amount_msat * 10 > u64::MAX && e@ == ErrorModel::Other(
            "failed to create invoice: "@ + testpayment::amount_too_large(),
        )) {
            let failure = choose|cause: ErrorModel|
                e@ == ErrorModel::Other(
                    "failed to create test_payment: "@ + #[trigger] cause.text(),
                ) && testpayment::is_draw_failure(cause);
            let cause = choose|cause: Seq<char>|
                failure == ErrorModel::Other("failed creating payment_secret: "@ + cause)
                    || failure == ErrorModel::Other("failed creating payment_hash: "@ + cause);
            let with = "failed creating payment_secret: "@ + cause;
        }
    }
}

/// "testpayment" probes with a payment of exactly the amount that was named, to the
/// destination that was named and the key behind it. It is refused for its arguments with
/// their message.
pub proof fn testpayment_pays_the_named_amount(
    args: Value,
    private_key: SecretKey,
    named: Result<PaymentArgs, Error>,
    r: Result<TestPayment, Error>,
)
    requires
        call_ensures(read_payment_args, (&args,), named),
        call_ensures(json_testpayment, (&args, private_key), r),
    ensures
        r matches Ok(t) ==> {
            &&& named matches Ok(p)
            &&& t.amount_msat == p.amount_msat
            &&& t.route_hint.src_node_id@ == p.destination@
            &&& t.fake_destination_priv == private_key
            &&& t.fake_destination_pubkey@ == primitives::point_of_scalar(private_key@)
            &&& t.min_final_cltv_expiry == 18
            &&& t.route_hint.short_channel_id == 0x100_0001_0001
            &&& t.route_hint.fees.base_msat == 0
            &&& t.route_hint.fees.proportional_millionths == 0
            &&& t.route_hint.cltv_expiry_delta == 144
            &&& forall|i: int| 0 <= i < 16 ==> #[trigger] t.payment_hash@[i] == 0xaa
        },
        named matches Err(Error::Other(why)) ==> (r matches Err(Error::Other(words)) && words@
            == why@),
        named is Ok && r is Err ==> (r matches Err(Error::Other(words)) && exists|cause: Seq<char>|
            words@ == "failed to create a test payment: "@ + #[trigger] (
            "failed creating payment_secret: "@ + cause) || words@
                == "failed to create a test payment: "@ + ("failed creating payment_hash: "@
                + cause)),
{
    if named is Ok && r is Err {
        let e = r->Err_0;
        let failure = choose|cause: ErrorModel|
            e@ == ErrorModel::Other(
                "failed to create a test payment: "@ + #[trigger] cause.text(),
            ) && testpayment::is_draw_failure(cause);
        let cause = choose|cause: Seq<char>|
            failure == ErrorModel::Other("failed creating payment_secret: "@ + cause) || failure
                == ErrorModel::Other("failed creating payment_hash: "@ + cause);
        let with = "failed creating payment_secret: "@ + cause;
    }
}

/// A destination to which no payment could be made has an outcome with that destination and
/// the amount that was asked for, an empty hash and no routes, and a message that says why.
/// A payment that could be made is kept.
pub proof fn unmade_payment_has_an_outcome(
    payment: Result<TestPayment, Error>,
    amount_msat: u64,
    destination: PublicKey,
    r: Result<TestPayment, ProbeResult>,
)
    requires
        call_ensures(payment_or_outcome, (payment, amount_msat, destination), r),
    ensures
        payment matches Ok(t) ==> r == Ok::<TestPayment, ProbeResult>(t),
        payment matches Err(e) ==> {
            &&& r matches Err(result)
            &&& forall|i: int| 0 <= i < 32 ==> #[trigger] result.payment_hash@[i] == 0
            &&& result.destination == destination
            &&& result.amount.msat == amount_msat
            &&& result.routes.len() == 0
            &&& result.status is Failed
            &&& result.message matches Some(m)
            &&& e matches Error::Other(why) ==> m@ == "failed to create a test payment: "@ + why@
            &&& e matches Error::NoRoutes(why) ==> m@ == "failed to create a test payment: "@ + (
            "Could not find any routes: "@ + why@)
        },
{
    if payment is Err {
        let result = r->Err_0;
        assert(result@.routes.len() == result.routes.len());
        assert(result@.payment_hash == result.payment_hash@);
    }
}

/// Each destination in the network is probed with a payment of the amount that was asked
/// for, to this destination and the key behind it.
pub proof fn network_payment_is_what_was_asked_for(
    amount_msat: u64,
    private_key: SecretKey,
    destination: PublicKey,
    r: Result<TestPayment, ProbeResult>,
)
    requires
        call_ensures(network_payment, (amount_msat, private_key, destination), r),
    ensures
        r matches Ok(t) ==> {
            &&& t.amount_msat == amount_msat
            &&& t.route_hint.src_node_id == destination
            &&& t.fake_destination_priv == private_key
            &&& t.fake_destination_pubkey@ == primitives::point_of_scalar(private_key@)
            &&& t.min_final_cltv_expiry == 18
            &&& t.route_hint.short_channel_id == 0x100_0001_0001
            &&& t.route_hint.fees.base_msat == 0
            &&& t.route_hint.fees.proportional_millionths == 0
            &&& t.route_hint.cltv_expiry_delta == 144
            &&& forall|i: int| 0 <= i < 16 ==> #[trigger] t.payment_hash@[i] == 0xaa
        },
        r matches Err(result) ==> {
            &&& result.destination == destination
            &&& result.amount.msat == amount_msat
            &&& result.routes.len() == 0
            &&& result.status is Failed
            &&& result.message is Some
        },
{
    if let Err(result) = r {
        assert(result@.routes.len() == result.routes.len());
    }
}

/// As many destinations are picked as were asked for, or all if there are fewer. Each is one
/// of the nodes, and no node is picked from the same place twice.
pub proof fn picked_destinations_are_nodes(
    rng: &mut StdRng,
    nodes: Vec<PublicKey>,
    n: u64,
    r: Vec<PublicKey>,
)
    requires
        n <= usize::MAX,
        call_ensures(pick_destinations, (rng, &nodes, n), r),
    ensures
        r.len() <= n && r.len() <= nodes.len(),
        r.len() == n || r.len() == nodes.len(),
        forall|i: int| 0 <= i < r.len() ==> nodes@.contains(#[trigger] r@[i]),
        exists|places: Seq<int>| #[trigger]
            places.no_duplicates() && places.len() == r.len() && forall|i: int|
            0 <= i < r.len() ==> 0 <= #[trigger] places[i] < nodes.len() && r@[i]
                == nodes@[places[i]],
{
    let places = choose|places: Seq<int>| is_pick(nodes@, places, r@);
    assert(places.no_duplicates());
    assert forall|i: int| 0 <= i < r.len() implies nodes@.contains(#[trigger] r@[i]) by {
        assert(0 <= places[i] < nodes.len() && r@[i] == nodes@[places[i]]);
    }
}

} // verus!
