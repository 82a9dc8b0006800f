//! Payments that nobody can claim, made to test a path.

use crate::error::{Error, ErrorModel};
use crate::primitives;
use crate::primitives::{Amount, PublicKey, SecretKey, ShortChannelId};
use crate::text;
use bitcoin::hashes::sha256;
use bitcoin::secp256k1;
use lightning_invoice::InvoiceBuilder;
use lightning_types::payment::PaymentSecret;
use lightning_types::routing;
use rand::rngs::SysRng;
use rand::TryRng;
use std::str::FromStr;
use std::time::Duration;
use vstd::prelude::*;

verus! {

/// The kind of coins that an invoice asks for.
#[derive(Debug, Clone, Copy, PartialEq, Eq, Structural)]
pub enum Currency {
    Bitcoin,
    BitcoinTestnet,
    Regtest,
    Simnet,
    Signet,
}

impl Currency {
    /// The sign of the currency in an invoice.
    pub open spec fn spec_prefix(self) -> Seq<char> {
        match self {
            Currency::Bitcoin => "bc"@,
            Currency::BitcoinTestnet => "tb"@,
            Currency::Regtest => "bcrt"@,
            Currency::Simnet => "sb"@,
            Currency::Signet => "tbs"@,
        }
    }

    /// The currency of the network `name`.
    pub open spec fn of_network(name: Seq<char>) -> Option<Currency> {
        if name == "bitcoin"@ {
            Some(Currency::Bitcoin)
        } else if name == "testnet"@ {
            Some(Currency::BitcoinTestnet)
        } else if name == "signet"@ {
            Some(Currency::Signet)
        } else if name == "regtest"@ {
            Some(Currency::Regtest)
        } else {
            None
        }
    }

    /// The currency of the network `name`. The network "testnet4" is known, but has no
    /// currency.
    pub fn from_network(name: &str) -> (r: Result<Currency, Error>)
        requires
            name@ != "testnet4"@,
        ensures
            match r {
                Ok(c) => Currency::of_network(name@) == Some(c),
                Err(e) => Currency::of_network(name@) is None && e@ == ErrorModel::Other(
                    "failed to parse "@ + name@ + " as network"@,
                ),
            },
    {
        match parse_network(name) {
            Ok(c) => Ok(c),
            Err(e) => Err(Error::Other(e)),
        }
    }

    /// The sign of the currency in an invoice.
    pub fn prefix(&self) -> (r: &'static str)
        ensures
            r@ == self.spec_prefix(),
    {
        match self {
            Currency::Bitcoin => "bc",
            Currency::BitcoinTestnet => "tb",
            Currency::Regtest => "bcrt",
            Currency::Simnet => "sb",
            Currency::Signet => "tbs",
        }
    }
}

/// Reads the name of a network with `bitcoin::Network::from_str` and takes its currency
/// with the `From` of `lightning_invoice::Currency`. Of the five names that the former
/// knows, the latter has no currency for "testnet4" and may panic. What is believed is
/// the table of the other four, and how the error reads.
#[verifier::external_body]
fn parse_network(name: &str) -> (r: Result<Currency, String>)
    requires
        name@ != "testnet4"@,
    ensures
        match r {
            Ok(c) => Currency::of_network(name@) == Some(c),
            Err(e) => Currency::of_network(name@) is None && e@ == "failed to parse "@ + name@
                + " as network"@,
        },
{
    match bitcoin::Network::from_str(name).map(lightning_invoice::Currency::from) {
        Ok(lightning_invoice::Currency::Bitcoin) => Ok(Currency::Bitcoin),
        Ok(lightning_invoice::Currency::BitcoinTestnet) => Ok(Currency::BitcoinTestnet),
        Ok(lightning_invoice::Currency::Regtest) => Ok(Currency::Regtest),
        Ok(lightning_invoice::Currency::Simnet) => Ok(Currency::Simnet),
        Ok(lightning_invoice::Currency::Signet) => Ok(Currency::Signet),
        Err(e) => Err(e.to_string()),
    }
}

/// What a node asks for forwarding a payment.
#[derive(Debug, Clone, Copy, PartialEq, Eq, Structural)]
pub struct RoutingFees {
    pub base_msat: u32,
    pub proportional_millionths: u32,
}

/// How a payer gets from a public node to a private one.
#[derive(Debug, Clone, Copy)]
pub struct RouteHintHop {
    pub src_node_id: PublicKey,
    pub short_channel_id: u64,
    pub fees: RoutingFees,
    pub cltv_expiry_delta: u16,
    pub htlc_minimum_msat: Option<u64>,
    pub htlc_maximum_msat: Option<u64>,
}

/// One hop of a payment that the node is told to make.
#[derive(Debug, Clone, Copy)]
pub struct SendpayRoute {
    pub amount_msat: Amount,
    pub delay: u32,
    pub channel: ShortChannelId,
    pub id: PublicKey,
}

/// A payment to a node that does not exist, behind a node that does.
#[derive(Debug, Clone, Copy)]
pub struct TestPayment {
    pub amount_msat: u64,
    pub fake_destination_priv: SecretKey,
    pub fake_destination_pubkey: PublicKey,
    pub payment_secret: [u8; 32],
    pub payment_hash: [u8; 32],
    pub min_final_cltv_expiry: u16,
    pub route_hint: RouteHintHop,
}

/// The number of the channel that is funded by an output of a transaction of a block.
pub open spec fn channel_number(block: nat, transaction: nat, output: nat) -> nat {
    block * 0x100_0000_0000 + transaction * 0x1_0000 + output
}

/// The byte that the payment hash of every test payment begins with, several times over.
pub const MARKER_BYTE: u8 = 0xaa;

/// The number of bytes at the beginning of a payment hash that mark it.
pub const MARKER_LEN: usize = 16;

/// `hash` is marked, so that the nodes on the way can recognize a test payment.
pub open spec fn is_marked(hash: Seq<u8>) -> bool {
    &&& hash.len() == 32
    &&& forall|i: int| 0 <= i < MARKER_LEN ==> #[trigger] hash[i] == MARKER_BYTE
}

/// The last moment, in seconds since 1970, that an invoice can be dated.
pub const LAST_TIMESTAMP: u64 = 0x7_FFFF_FFFF;

/// How the refusal of an amount that no invoice can hold reads.
pub open spec fn amount_too_large() -> Seq<char> {
    "The supplied millisatoshi amount was greater than the total bitcoin supply"@
}

/// `prefix` is the sign of one of the currencies.
pub open spec fn is_currency_prefix(prefix: Seq<char>) -> bool {
    exists|c: Currency| prefix == #[trigger] c.spec_prefix()
}

/// `text` begins with "ln", `prefix`, the number `n` and a unit, which together are
/// `amount_msat`, and then the separator of what follows.
pub open spec fn starts_with_amount(
    text: Seq<char>,
    prefix: Seq<char>,
    n: nat,
    amount_msat: u64,
) -> bool {
    let head = "ln"@ + prefix + text::decimal(n);
    let unit = text[head.len() as int];
    &&& text.len() >= head.len() + 2
    &&& text.take(head.len() as int) == head
    &&& text[head.len() as int + 1] == '1'
    &&& (unit == 'm' && n * 1_000_000_000 == amount_msat * 10) || (unit == 'u' && n * 1_000_000
        == amount_msat * 10) || (unit == 'n' && n * 1_000 == amount_msat * 10) || (unit == 'p' && n
        == amount_msat * 10)
}

/// The invoice that begins like `text` asks for `amount_msat` in the currency of `prefix`.
pub open spec fn asks_for(text: Seq<char>, prefix: Seq<char>, amount_msat: u64) -> bool {
    exists|n: nat|
        #![trigger text::decimal(n)]
        starts_with_amount(text, prefix, n, amount_msat)
}

/// The text of an invoice with these contents, dated `timestamp` and signed with
/// `signing_key`. The hint for the route starts at `hint_node`; the rest of it stands
/// between that and the key.
pub uninterp spec fn bolt11_text(
    currency_prefix: Seq<char>,
    payment_hash: Seq<u8>,
    amount_msat: u64,
    description: Seq<char>,
    timestamp: u64,
    min_final_cltv_expiry: u64,
    payment_secret: Seq<u8>,
    hint_node: Seq<u8>,
    short_channel_id: u64,
    base_msat: u32,
    proportional_millionths: u32,
    cltv_expiry_delta: u16,
    htlc_minimum_msat: Option<u64>,
    htlc_maximum_msat: Option<u64>,
    signing_key: Seq<u8>,
) -> Seq<char>;

/// Builds and signs an invoice with `lightning_invoice::InvoiceBuilder` and writes it
/// down. It is believed that the text depends on the arguments alone, as the signature
/// is deterministic, that it begins with the amount that was given, that the only thing that
/// can fail is an amount of which the tenfold exceeds 64 bits, and how that error reads.
#[verifier::external_body]
fn sign_invoice(
    currency_prefix: &str,
    payment_hash: &[u8; 32],
    amount_msat: u64,
    description: &str,
    timestamp: u64,
    min_final_cltv_expiry: u64,
    payment_secret: &[u8; 32],
    hint_node: &[u8; 33],
    short_channel_id: u64,
    base_msat: u32,
    proportional_millionths: u32,
    cltv_expiry_delta: u16,
    htlc_minimum_msat: Option<u64>,
    htlc_maximum_msat: Option<u64>,
    signing_key: &[u8; 32],
) -> (r: Result<String, String>)
    requires
        is_currency_prefix(currency_prefix@),
        description.is_ascii(),
        description@.len() <= 639,
        timestamp <= LAST_TIMESTAMP,
        primitives::is_point(hint_node@),
        primitives::is_scalar(signing_key@),
    ensures
        match r {
            Ok(text) => amount_msat * 10 <= u64::MAX && asks_for(
                text@,
                currency_prefix@,
                amount_msat,
            ) && text@ == bolt11_text(
                currency_prefix@,
                payment_hash@,
                amount_msat,
                description@,
                timestamp,
                min_final_cltv_expiry,
                payment_secret@,
                hint_node@,
                short_channel_id,
                base_msat,
                proportional_millionths,
                cltv_expiry_delta,
                htlc_minimum_msat,
                htlc_maximum_msat,
                signing_key@,
            ),
            Err(e) => amount_msat * 10 > u64::MAX && e@ == amount_too_large(),
        },
{
    let key = secp256k1::SecretKey::from_slice(signing_key).unwrap();
    let src_node_id = secp256k1::PublicKey::from_slice(hint_node).unwrap();
    let fees = routing::RoutingFees { base_msat, proportional_millionths };
    let hop = routing::RouteHintHop { src_node_id, short_channel_id, fees, cltv_expiry_delta, htlc_minimum_msat, htlc_maximum_msat };
    let built = InvoiceBuilder::new(currency_prefix.parse().unwrap())
        .payment_hash(*sha256::Hash::from_bytes_ref(payment_hash))
        .amount_milli_satoshis(amount_msat).description(description.to_string())
        .duration_since_epoch(Duration::from_secs(timestamp))
        .min_final_cltv_expiry_delta(min_final_cltv_expiry)
        .payment_secret(PaymentSecret(*payment_secret))
        .private_route(routing::RouteHint(vec![hop]))
        .build_signed(|hash| secp256k1::Secp256k1::new().sign_ecdsa_recoverable(hash, &key));
    built.map(|invoice| invoice.to_string()).map_err(|e| e.to_string())
}

/// Draws 32 bytes with `rand::rngs::SysRng`, the random number generator of the operating
/// system. Nothing is believed of them, nor of when there are none.
#[verifier::external_body]
fn draw_bytes() -> (r: Result<[u8; 32], String>) {
    let mut bytes = [0u8; 32];
    match SysRng.try_fill_bytes(&mut bytes) {
        Ok(()) => Ok(bytes),
        Err(e) => Err(e.to_string()),
    }
}

/// `e` says that no payment secret, or no payment hash, could be drawn.
pub open spec fn is_draw_failure(e: ErrorModel) -> bool {
    exists|cause: Seq<char>|
        e == ErrorModel::Other("failed creating payment_secret: "@ + cause) || e
            == ErrorModel::Other("failed creating payment_hash: "@ + cause)
}

/// The hint that leads from `destination` to the node that does not exist.
pub open spec fn hint_behind(destination: PublicKey) -> RouteHintHop {
    RouteHintHop {
        src_node_id: destination,
        short_channel_id: channel_number(1, 1, 1) as u64,
        fees: RoutingFees { base_msat: 0, proportional_millionths: 0 },
        cltv_expiry_delta: 144,
        htlc_minimum_msat: None,
        htlc_maximum_msat: None,
    }
}

/// Marks `drawn`, and keeps what stands behind the mark.
fn mark(drawn: [u8; 32]) -> (r: [u8; 32])
    ensures
        is_marked(r@),
        forall|i: int| MARKER_LEN <= i < 32 ==> #[trigger] r@[i] == drawn@[i],
{
    let mut hash = drawn;
    for i in 0..MARKER_LEN
        invariant
            hash@.len() == 32,
            forall|j: int| 0 <= j < i ==> #[trigger] hash@[j] == MARKER_BYTE,
            forall|j: int| i <= j < 32 ==> #[trigger] hash@[j] == drawn@[j],
    {
        hash[i] = MARKER_BYTE;
    }
    hash
}

impl TestPayment {
    /// The payment tests how `amount_msat` get to `destination`, and to the key
    /// `privk` behind it, and can be recognized as a test.
    pub open spec fn tests(self, amount_msat: u64, privk: SecretKey, destination: PublicKey) -> bool {
        &&& self.amount_msat == amount_msat
        &&& self.fake_destination_priv == privk
        &&& self.fake_destination_pubkey@ == primitives::point_of_scalar(privk@)
        &&& is_marked(self.payment_hash@)
        &&& self.min_final_cltv_expiry == 18
        &&& self.route_hint == hint_behind(destination)
    }

    /// The fee that the real destination asks for forwarding the payment.
    pub open spec fn hint_fee(self) -> nat {
        (self.route_hint.fees.base_msat + (self.route_hint.fees.proportional_millionths
            * self.amount_msat) / 1000000) as nat
    }

    /// What the real destination receives.
    pub open spec fn spec_prev_amount(self) -> nat {
        self.amount_msat as nat + self.hint_fee()
    }

    /// The delay of what the real destination receives.
    pub open spec fn spec_prev_delay(self) -> nat {
        self.route_hint.cltv_expiry_delta as nat + self.min_final_cltv_expiry as nat
    }

    /// The amounts and delays of the payment fit their types.
    pub open spec fn fits(self) -> bool {
        &&& self.route_hint.fees.proportional_millionths * self.amount_msat <= u64::MAX
        &&& self.spec_prev_amount() <= u64::MAX
        &&& self.spec_prev_delay() <= u16::MAX
    }

    /// The last hop of the payment, from the real destination to the key behind it.
    pub open spec fn spec_final_hop(self) -> SendpayRoute {
        SendpayRoute {
            amount_msat: Amount { msat: self.amount_msat },
            delay: self.min_final_cltv_expiry as u32,
            channel: ShortChannelId(self.route_hint.short_channel_id),
            id: self.fake_destination_pubkey,
        }
    }

    /// The text of the invoice of the payment, dated `timestamp` seconds after the beginning
    /// of 1970, or why there is none.
    pub open spec fn spec_invoice(self, currency: Currency, timestamp: u64) -> Result<
        Seq<char>,
        Seq<char>,
    > {
        if self.amount_msat * 10 > u64::MAX {
            Err(amount_too_large())
        } else {
            Ok(
                bolt11_text(
                    currency.spec_prefix(),
                    self.payment_hash@,
                    self.amount_msat,
                    "Test invoice"@,
                    timestamp,
                    self.min_final_cltv_expiry as u64,
                    self.payment_secret@,
                    self.route_hint.src_node_id@,
                    self.route_hint.short_channel_id,
                    self.route_hint.fees.base_msat,
                    self.route_hint.fees.proportional_millionths,
                    self.route_hint.cltv_expiry_delta,
                    self.route_hint.htlc_minimum_msat,
                    self.route_hint.htlc_maximum_msat,
                    self.fake_destination_priv@,
                ),
            )
        }
    }

    /// A payment with the given payment secret, and with a payment hash that is marked and
    /// otherwise as given, or the reason why one of them is missing.
    pub fn from_draws(
        amount_msat: u64,
        fake_destination_priv: SecretKey,
        real_destination: PublicKey,
        payment_secret: Result<[u8; 32], String>,
        payment_hash: Result<[u8; 32], String>,
    ) -> (r: Result<TestPayment, Error>)
        ensures
            match r {
                Ok(t) => {
                    &&& t.tests(amount_msat, fake_destination_priv, real_destination)
                    &&& payment_secret == Ok::<[u8; 32], String>(t.payment_secret)
                    &&& is_marked(t.payment_hash@)
                    &&& payment_hash matches Ok(drawn) && forall|i: int|
                        MARKER_LEN <= i < 32 ==> #[trigger] t.payment_hash@[i] == drawn@[i]
                },
                Err(e) => match payment_secret {
                    Err(cause) => e@ == ErrorModel::Other(
                        "failed creating payment_secret: "@ + cause@,
                    ),
                    Ok(_) => payment_hash matches Err(cause) && e@ == ErrorModel::Other(
                        "failed creating payment_hash: "@ + cause@,
                    ),
                },
            },
    {
        let payment_secret = match payment_secret {
            Ok(bytes) => bytes,
            Err(cause) => {
                return Err(Error::caused("failed creating payment_secret: ", cause.as_str()));
            },
        };
        // Something that nobody has a preimage for, and that allows the nodes on the way to
        // recognize a test payment.
        let payment_hash = match payment_hash {
            Ok(bytes) => mark(bytes),
            Err(cause) => {
                return Err(Error::caused("failed creating payment_hash: ", cause.as_str()));
            },
        };
        assert((1u64 << 40) | (1u64 << 16) | 1u64 == 0x100_0001_0001u64) by (bit_vector);
        let route_hint = RouteHintHop {
            src_node_id: real_destination,
            short_channel_id: (1u64 << 40) | (1u64 << 16) | 1u64,
            fees: RoutingFees { base_msat: 0, proportional_millionths: 0 },
            cltv_expiry_delta: 144,
            htlc_minimum_msat: None,
            htlc_maximum_msat: None,
        };
        let fake_destination_pubkey = PublicKey::from_secret_key(&fake_destination_priv);
        Ok(
            TestPayment {
                amount_msat,
                fake_destination_priv,
                fake_destination_pubkey,
                payment_secret,
                payment_hash,
                min_final_cltv_expiry: 18,
                route_hint,
            },
        )
    }

    /// A payment with a random payment secret, and with a payment hash that is marked and
    /// otherwise random.
    pub fn new(
        amount_msat: u64,
        fake_destination_priv: SecretKey,
        real_destination: PublicKey,
    ) -> (r: Result<TestPayment, Error>)
        ensures
            match r {
                Ok(t) => {
                    &&& t.tests(amount_msat, fake_destination_priv, real_destination)
                    &&& is_marked(t.payment_hash@)
                },
                Err(e) => is_draw_failure(e@),
            },
    {
        let payment_secret = draw_bytes();
        let payment_hash = draw_bytes();
        TestPayment::from_draws(
            amount_msat,
            fake_destination_priv,
            real_destination,
            payment_secret,
            payment_hash,
        )
    }

    /// The real destination of the payment.
    pub fn prev_destination(&self) -> (r: PublicKey)
        ensures
            r == self.route_hint.src_node_id,
    {
        self.route_hint.src_node_id
    }

    /// The delay of what the real destination receives.
    pub fn prev_delay(&self) -> (r: u16)
        requires
            self.spec_prev_delay() <= u16::MAX,
        ensures
            r == self.spec_prev_delay(),
    {
        self.route_hint.cltv_expiry_delta + self.min_final_cltv_expiry
    }

    /// What the real destination receives.
    pub fn prev_amount_msat(&self) -> (r: u64)
        requires
            self.route_hint.fees.proportional_millionths * self.amount_msat <= u64::MAX,
            self.spec_prev_amount() <= u64::MAX,
        ensures
            r == self.spec_prev_amount(),
    {
        let p: u64 = self.route_hint.fees.proportional_millionths as u64;
        let b: u64 = self.route_hint.fees.base_msat as u64;
        self.amount_msat + b + (p * self.amount_msat) / 1000000
    }

    /// The last hop of the payment, from the real destination to the key behind it.
    pub fn final_hop(&self) -> (r: SendpayRoute)
        ensures
            r == self.spec_final_hop(),
    {
        SendpayRoute {
            amount_msat: Amount::from_msat(self.amount_msat),
            delay: self.min_final_cltv_expiry as u32,
            channel: ShortChannelId(self.route_hint.short_channel_id),
            id: self.fake_destination_pubkey,
        }
    }

    /// The invoice of the payment, dated `timestamp` seconds after the beginning of 1970.
    /// Its hint for the route leads through the real destination to a node that does not
    /// exist.
    pub fn get_invoice(&self, currency: Currency, timestamp: u64) -> (r: Result<String, Error>)
        requires
            timestamp <= LAST_TIMESTAMP,
        ensures
            match (self.spec_invoice(currency, timestamp), r) {
                (Ok(expected), Ok(text)) => text@ == expected && asks_for(
                    text@,
                    currency.spec_prefix(),
                    self.amount_msat,
                ),
                (Err(why), Err(e)) => e@ == ErrorModel::Other(why),
                _ => false,
            },
    {
        proof {
            reveal_strlit("Test invoice");
            assert(is_currency_prefix(currency.spec_prefix()));
        }
        let invoice = sign_invoice(
            currency.prefix(),
            &self.payment_hash,
            self.amount_msat,
            "Test invoice",
            timestamp,
            self.min_final_cltv_expiry as u64,
            &self.payment_secret,
            &self.route_hint.src_node_id.to_byte_array(),
            self.route_hint.short_channel_id,
            self.route_hint.fees.base_msat,
            self.route_hint.fees.proportional_millionths,
            self.route_hint.cltv_expiry_delta,
            self.route_hint.htlc_minimum_msat,
            self.route_hint.htlc_maximum_msat,
            &self.fake_destination_priv.to_byte_array(),
        );
        match invoice {
            Ok(text) => Ok(text),
            Err(e) => Err(Error::Other(e)),
        }
    }
}

/// A payment as it is made asks the real destination to forward it for free, with a
/// delay of 162 blocks, and all its amounts and delays fit their types.
pub proof fn made_payment_is_free_to_forward(
    t: TestPayment,
    amount_msat: u64,
    privk: SecretKey,
    destination: PublicKey,
)
    requires
        t.tests(amount_msat, privk, destination),
    ensures
        t.fits(),
        t.spec_prev_amount() == amount_msat,
        t.spec_prev_delay() == 162,
{
}

/// The payment hashes of any two test payments begin with the same mark.
pub proof fn test_payments_are_recognized(
    t: TestPayment,
    amount_msat: u64,
    privk: SecretKey,
    destination: PublicKey,
    other: TestPayment,
    other_amount_msat: u64,
    other_privk: SecretKey,
    other_destination: PublicKey,
)
    requires
        t.tests(amount_msat, privk, destination),
        other.tests(other_amount_msat, other_privk, other_destination),
    ensures
        t.payment_hash@.take(MARKER_LEN as int) == primitives::repeated(
            MARKER_BYTE,
            MARKER_LEN as nat,
        ),
        t.payment_hash@.take(MARKER_LEN as int) == other.payment_hash@.take(MARKER_LEN as int),
{
    let mark = primitives::repeated(MARKER_BYTE, MARKER_LEN as nat);
    assert(t.payment_hash@.take(MARKER_LEN as int) =~= mark);
    assert(other.payment_hash@.take(MARKER_LEN as int) =~= mark);
}

/// A payment is made of what it was asked for: the amount, the key behind the destination and
/// that key's point, and a hint from the real destination that costs nothing, takes 144
/// blocks and leads through the channel 1x1x1. The secret is as given, and so is the hash but
/// for its first 16 bytes, which are all 0xaa.
pub proof fn payment_is_what_was_asked_for(
    amount_msat: u64,
    privk: SecretKey,
    destination: PublicKey,
    secret: Result<[u8; 32], String>,
    hash: Result<[u8; 32], String>,
    r: Result<TestPayment, Error>,
)
    requires
        call_ensures(
            TestPayment::from_draws,
            (amount_msat, privk, destination, secret, hash),
            r,
        ),
    ensures
        r is Ok <==> secret is Ok && hash is Ok,
        r matches Ok(t) ==> {
            &&& t.amount_msat == amount_msat
            &&& t.fake_destination_priv == privk
            &&& t.fake_destination_pubkey@ == primitives::point_of_scalar(privk@)
            &&& t.min_final_cltv_expiry == 18
            &&& t.route_hint.src_node_id == destination
            &&& t.route_hint.short_channel_id == 0x100_0001_0001
            &&& t.route_hint.fees.base_msat == 0
            &&& t.route_hint.fees.proportional_millionths == 0
            &&& t.route_hint.cltv_expiry_delta == 144
            &&& t.route_hint.htlc_minimum_msat is None
            &&& t.route_hint.htlc_maximum_msat is None
            &&& t.payment_secret == secret->Ok_0
            &&& forall|i: int| 0 <= i < 16 ==> #[trigger] t.payment_hash@[i] == 0xaa
            &&& forall|i: int|
                16 <= i < 32 ==> #[trigger] t.payment_hash@[i] == hash->Ok_0@[i]
        },
        r matches Err(e) ==> (e matches Error::Other(words) && words@ == (match secret {
            Err(cause) => "failed creating payment_secret: "@ + cause@,
            Ok(_) => "failed creating payment_hash: "@ + hash->Err_0@,
        })),
{
}

/// A new payment is made of what it was asked for as well.
pub proof fn new_payment_is_what_was_asked_for(
    amount_msat: u64,
    privk: SecretKey,
    destination: PublicKey,
    t: TestPayment,
)
    requires
        call_ensures(TestPayment::new, (amount_msat, privk, destination), Ok(t)),
    ensures
        t.amount_msat == amount_msat,
        t.fake_destination_priv == privk,
        t.fake_destination_pubkey@ == primitives::point_of_scalar(privk@),
        t.min_final_cltv_expiry == 18,
        t.route_hint.src_node_id == destination,
        t.route_hint.short_channel_id == 0x100_0001_0001,
        t.route_hint.fees.base_msat == 0,
        t.route_hint.fees.proportional_millionths == 0,
        t.route_hint.cltv_expiry_delta == 144,
        t.route_hint.htlc_minimum_msat is None,
        t.route_hint.htlc_maximum_msat is None,
        forall|i: int| 0 <= i < 16 ==> #[trigger] t.payment_hash@[i] == 0xaa,
{
}

/// A new payment fails only for want of random bytes, and says for which.
pub proof fn new_payment_fails_for_want_of_bytes(
    amount_msat: u64,
    privk: SecretKey,
    destination: PublicKey,
    e: Error,
)
    requires
        call_ensures(TestPayment::new, (amount_msat, privk, destination), Err(e)),
    ensures
        e matches Error::Other(words) && exists|cause: Seq<char>|
            words@ == #[trigger] ("failed creating payment_secret: "@ + cause) || words@
                == "failed creating payment_hash: "@ + cause,
{
    let cause = choose|cause: Seq<char>|
        e@ == ErrorModel::Other("failed creating payment_secret: "@ + cause) || e@
            == ErrorModel::Other("failed creating payment_hash: "@ + cause);
    let with = "failed creating payment_secret: "@ + cause;
}

/// The real destination receives the amount, the fixed fee, and the millionths of the amount
/// that it asks for, without the rest that is less than one.
pub proof fn real_destination_receives_amount_and_fee(t: TestPayment, r: u64)
    requires
        call_ensures(TestPayment::prev_amount_msat, (&t,), r),
    ensures
        ({
            let share = r - t.amount_msat - t.route_hint.fees.base_msat;
            share * 1_000_000 <= t.route_hint.fees.proportional_millionths * t.amount_msat < (share
                + 1) * 1_000_000
        }),
{
    let p = t.route_hint.fees.proportional_millionths * t.amount_msat;
    assert(p >= 0) by (nonlinear_arith)
        requires
            p == t.route_hint.fees.proportional_millionths * t.amount_msat,
    ;
}

/// What the real destination receives has its own delay on top of that of the last hop, and
/// the last hop brings the amount to the key behind it, through the channel of the hint.
pub proof fn last_hop_follows_the_hint(
    t: TestPayment,
    to: PublicKey,
    delay: u16,
    hop: SendpayRoute,
)
    requires
        call_ensures(TestPayment::prev_destination, (&t,), to),
        call_ensures(TestPayment::prev_delay, (&t,), delay),
        call_ensures(TestPayment::final_hop, (&t,), hop),
    ensures
        to == t.route_hint.src_node_id,
        delay == hop.delay + t.route_hint.cltv_expiry_delta,
        hop.delay == t.min_final_cltv_expiry,
        hop.amount_msat.msat == t.amount_msat,
        hop.channel.0 == t.route_hint.short_channel_id,
        hop.id == t.fake_destination_pubkey,
{
}

/// The networks and their currencies. No other name is read, and the message repeats it.
pub proof fn networks_have_their_currencies(name: &str, r: Result<Currency, Error>)
    requires
        call_ensures(Currency::from_network, (name,), r),
    ensures
        r == Ok::<Currency, Error>(Currency::Bitcoin) <==> name@ == "bitcoin"@,
        r == Ok::<Currency, Error>(Currency::BitcoinTestnet) <==> name@ == "testnet"@,
        r == Ok::<Currency, Error>(Currency::Signet) <==> name@ == "signet"@,
        r == Ok::<Currency, Error>(Currency::Regtest) <==> name@ == "regtest"@,
        r is Err <==> name@ != "bitcoin"@ && name@ != "testnet"@ && name@ != "signet"@ && name@
            != "regtest"@,
        r matches Err(e) ==> (e matches Error::Other(words) && words@ == "failed to parse "@ + name@
            + " as network"@),
{
    reveal_strlit("bitcoin");
    reveal_strlit("testnet");
    reveal_strlit("signet");
    reveal_strlit("regtest");
    assert("bitcoin"@[0] == 'b' && "testnet"@[0] == 't' && "signet"@[0] == 's' && "regtest"@[0]
        == 'r');
}

/// The signs of the currencies.
pub proof fn currencies_have_their_signs(c: Currency, r: &'static str)
    requires
        call_ensures(Currency::prefix, (&c,), r),
    ensures
        match c {
            Currency::Bitcoin => r@ == "bc"@,
            Currency::BitcoinTestnet => r@ == "tb"@,
            Currency::Regtest => r@ == "bcrt"@,
            Currency::Simnet => r@ == "sb"@,
            Currency::Signet => r@ == "tbs"@,
        },
{
}

/// The invoice of a payment has all that the payment is: its hash, its amount, its secret,
/// its delay at the end, the whole of its hint, and the signature of the key behind the
/// destination. It is refused only if the tenfold of the amount is too large a number.
pub proof fn invoice_says_what_the_payment_is(
    t: TestPayment,
    currency: Currency,
    timestamp: u64,
    prefix: &'static str,
    r: Result<String, Error>,
)
    requires
        call_ensures(Currency::prefix, (&currency,), prefix),
        call_ensures(TestPayment::get_invoice, (&t, currency, timestamp), r),
    ensures
        r is Ok <==> t.amount_msat * 10 <= u64::MAX,
        r matches Ok(text) ==> text@ == bolt11_text(
            prefix@,
            t.payment_hash@,
            t.amount_msat,
            "Test invoice"@,
            timestamp,
            t.min_final_cltv_expiry as u64,
            t.payment_secret@,
            t.route_hint.src_node_id@,
            t.route_hint.short_channel_id,
            t.route_hint.fees.base_msat,
            t.route_hint.fees.proportional_millionths,
            t.route_hint.cltv_expiry_delta,
            t.route_hint.htlc_minimum_msat,
            t.route_hint.htlc_maximum_msat,
            t.fake_destination_priv@,
        ),
        r matches Err(e) ==> (e matches Error::Other(words) && words@
            == "The supplied millisatoshi amount was greater than the total bitcoin supply"@),
{
}

/// Whoever reads the beginning of an invoice reads the amount of the payment: behind "ln" and
/// the sign of the currency stand a number and a unit, of which the product is the amount.
/// The units are "m" for 100000000 millisatoshi, "u" for 100000, "n" for 100 and "p" for a
/// tenth.
pub proof fn invoice_asks_for_the_amount(
    t: TestPayment,
    currency: Currency,
    timestamp: u64,
    prefix: &'static str,
    text: String,
)
    requires
        call_ensures(Currency::prefix, (&currency,), prefix),
        call_ensures(TestPayment::get_invoice, (&t, currency, timestamp), Ok(text)),
    ensures
        exists|n: nat|
            #![trigger text::decimal(n)]
            {
                let head = "ln"@ + prefix@ + text::decimal(n);
                let unit = text@[head.len() as int];
                &&& text@.len() >= head.len() + 2
                &&& text@.take(head.len() as int) == head
                &&& text@[head.len() as int + 1] == '1'
                &&& (unit == 'm' && n * 1_000_000_000 == t.amount_msat * 10) || (unit == 'u' && n
                    * 1_000_000 == t.amount_msat * 10) || (unit == 'n' && n * 1_000
                    == t.amount_msat * 10) || (unit == 'p' && n == t.amount_msat * 10)
            },
{
    assert(asks_for(text@, prefix@, t.amount_msat));
}

/// The invoices of two payments of different amounts in the same currency are different.
pub proof fn invoices_tell_amounts_apart(
    a: TestPayment,
    b: TestPayment,
    currency: Currency,
    a_timestamp: u64,
    b_timestamp: u64,
    a_text: String,
    b_text: String,
)
    requires
        a.amount_msat != b.amount_msat,
        call_ensures(TestPayment::get_invoice, (&a, currency, a_timestamp), Ok(a_text)),
        call_ensures(TestPayment::get_invoice, (&b, currency, b_timestamp), Ok(b_text)),
    ensures
        a_text@ != b_text@,
{
    if a_text@ == b_text@ {
        let s = a_text@;
        let start = "ln"@ + currency.spec_prefix();
        let k = start.len() as int;
        assert(asks_for(s, currency.spec_prefix(), a.amount_msat));
        assert(asks_for(s, currency.spec_prefix(), b.amount_msat));
        let m = choose|n: nat|
            #![trigger text::decimal(n)]
            starts_with_amount(s, currency.spec_prefix(), n, a.amount_msat);
        let n = choose|n: nat|
            #![trigger text::decimal(n)]
            starts_with_amount(s, currency.spec_prefix(), n, b.amount_msat);
        let p = text::decimal(m);
        let q = text::decimal(n);
        text::decimal_has_only_digits(m);
        text::decimal_has_only_digits(n);
        assert(s.take((start + p).len() as int) == start + p);
        assert(s.take((start + q).len() as int) == start + q);
        assert forall|i: int| 0 <= i < p.len() implies s[k + i] == #[trigger] p[i] by {
            assert(s.take((start + p).len() as int)[k + i] == (start + p)[k + i]);
        }
        assert forall|i: int| 0 <= i < q.len() implies s[k + i] == #[trigger] q[i] by {
            assert(s.take((start + q).len() as int)[k + i] == (start + q)[k + i]);
        }
        if p.len() < q.len() {
            assert(s[k + p.len()] == q[p.len() as int]);
        }
        if q.len() < p.len() {
            assert(s[k + q.len()] == p[q.len() as int]);
        }
        assert(p =~= q);
        text::decimal_tells_numbers_apart(m, n);
    }
}

} // verus!
