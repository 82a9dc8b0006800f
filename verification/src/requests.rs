//! What the node is asked.

use crate::primitives::{Amount, PublicKey, ShortChannelIdDir};
use crate::testpayment::SendpayRoute;
use vstd::prelude::*;

verus! {

/// Asks for the layer of a name.
#[derive(Debug)]
pub struct AskrenelistlayersRequest {
    pub layer: Option<String>,
}

/// Creates a layer.
#[derive(Debug)]
pub struct AskrenecreatelayerRequest {
    pub layer: String,
    pub persistent: Option<bool>,
}

/// Makes a layer forget what it learned before `cutoff`, in seconds since 1970.
#[derive(Debug)]
pub struct AskreneageRequest {
    pub layer: String,
    pub cutoff: u64,
}

/// What a layer learns of a channel: that it could not pass an amount on, or that it
/// could.
#[derive(Debug, Clone, Copy, PartialEq, Eq, Structural)]
pub enum AskreneinformchannelInform {
    Constrained,
    Unconstrained,
}

/// Teaches a layer what became of an amount in a channel.
#[derive(Debug)]
pub struct AskreneinformchannelRequest {
    pub layer: String,
    pub amount_msat: Option<Amount>,
    pub short_channel_id_dir: Option<ShortChannelIdDir>,
    pub inform: Option<AskreneinformchannelInform>,
}

/// Changes what a layer says of a channel.
#[derive(Debug)]
pub struct AskreneupdatechannelRequest {
    pub layer: String,
    pub short_channel_id_dir: ShortChannelIdDir,
    pub enabled: Option<bool>,
    pub cltv_expiry_delta: Option<u16>,
    pub fee_base_msat: Option<Amount>,
    pub fee_proportional_millionths: Option<u32>,
    pub htlc_minimum_msat: Option<Amount>,
    pub htlc_maximum_msat: Option<Amount>,
}

/// Asks for routes.
#[derive(Debug)]
pub struct GetroutesRequest {
    pub source: PublicKey,
    pub destination: PublicKey,
    pub amount_msat: Amount,
    pub layers: Vec<String>,
    pub maxfee_msat: Amount,
    pub maxdelay: Option<u32>,
    pub maxparts: Option<u32>,
    pub final_cltv: Option<u32>,
}

/// Sends a payment along a route.
#[derive(Debug)]
pub struct SendpayRequest {
    pub payment_hash: [u8; 32],
    pub payment_secret: Option<[u8; 32]>,
    pub route: Vec<SendpayRoute>,
    pub amount_msat: Option<Amount>,
    pub partid: Option<u64>,
    pub groupid: Option<u64>,
}

/// Waits for the end of a payment that was sent.
#[derive(Debug, Clone, Copy)]
pub struct WaitsendpayRequest {
    pub payment_hash: [u8; 32],
    pub partid: Option<u64>,
    pub groupid: Option<u64>,
    pub timeout: Option<u32>,
}

impl AskreneinformchannelRequest {
    /// The request teaches `layer` that `amount` was, or was not, too much for `channel`.
    pub open spec fn teaches(
        self,
        layer: Seq<char>,
        channel: ShortChannelIdDir,
        amount: Amount,
        inform: AskreneinformchannelInform,
    ) -> bool {
        &&& self.layer@ == layer
        &&& self.amount_msat == Some(amount)
        &&& self.short_channel_id_dir == Some(channel)
        &&& self.inform == Some(inform)
    }
}

impl AskreneupdatechannelRequest {
    /// The request switches `channel` on or off in `layer`, and changes nothing else.
    pub open spec fn switches(
        self,
        layer: Seq<char>,
        channel: ShortChannelIdDir,
        enabled: bool,
    ) -> bool {
        &&& self.layer@ == layer
        &&& self.short_channel_id_dir == channel
        &&& self.enabled == Some(enabled)
        &&& self.cltv_expiry_delta is None
        &&& self.fee_base_msat is None
        &&& self.fee_proportional_millionths is None
        &&& self.htlc_minimum_msat is None
        &&& self.htlc_maximum_msat is None
    }

    /// The request that switches `channel` on or off in `layer`.
    pub fn switch(layer: &str, channel: ShortChannelIdDir, enabled: bool) -> (r: Self)
        ensures
            r.switches(layer@, channel, enabled),
    {
        AskreneupdatechannelRequest {
            layer: layer.to_string(),
            short_channel_id_dir: channel,
            enabled: Some(enabled),
            cltv_expiry_delta: None,
            fee_base_msat: None,
            fee_proportional_millionths: None,
            htlc_minimum_msat: None,
            htlc_maximum_msat: None,
        }
    }
}

/// A request that switches a channel on or off says so of this channel in this layer, and
/// leaves everything else of the channel as it is.
pub proof fn switching_changes_nothing_else(
    layer: &str,
    channel: ShortChannelIdDir,
    enabled: bool,
    r: AskreneupdatechannelRequest,
)
    requires
        call_ensures(AskreneupdatechannelRequest::switch, (layer, channel, enabled), r),
    ensures
        r.layer@ == layer@,
        r.short_channel_id_dir == channel,
        r.enabled == Some(enabled),
        r.cltv_expiry_delta is None,
        r.fee_base_msat is None,
        r.fee_proportional_millionths is None,
        r.htlc_minimum_msat is None,
        r.htlc_maximum_msat is None,
{
}

} // verus!
