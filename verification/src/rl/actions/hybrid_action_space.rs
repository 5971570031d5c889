//! Discrete components of the hybrid action space: order type and side,
//! with their byte codes, and the fixed 16-byte frame in which an action
//! travels.

use vstd::prelude::*;

verus! {

/// Order type.
#[derive(Debug, Clone, Copy, PartialEq, Eq, Structural)]
pub enum OrderType {
    Market,
    Limit,
    PostOnly,
    IOC,
    FOK,
}

/// The code of an order type (its position in the declaration).
pub open spec fn order_type_code(t: OrderType) -> u8 {
    match t {
        OrderType::Market => 0,
        OrderType::Limit => 1,
        OrderType::PostOnly => 2,
        OrderType::IOC => 3,
        OrderType::FOK => 4,
    }
}

/// The order type with a given code.
pub open spec fn order_type_of_code(val: u8) -> Option<OrderType> {
    if val == 0 {
        Some(OrderType::Market)
    } else if val == 1 {
        Some(OrderType::Limit)
    } else if val == 2 {
        Some(OrderType::PostOnly)
    } else if val == 3 {
        Some(OrderType::IOC)
    } else if val == 4 {
        Some(OrderType::FOK)
    } else {
        None
    }
}

impl OrderType {
    /// The order type with code `val`, if any.
    pub fn from_u8(val: u8) -> (r: Option<Self>)
        ensures
            r == order_type_of_code(val),
    {
        match val {
            0 => Some(OrderType::Market),
            1 => Some(OrderType::Limit),
            2 => Some(OrderType::PostOnly),
            3 => Some(OrderType::IOC),
            4 => Some(OrderType::FOK),
            _ => None,
        }
    }

    /// Whether the order type carries a price.
    pub fn requires_price(self) -> (r: bool)
        ensures
            r == (self == OrderType::Limit || self == OrderType::PostOnly),
    {
        matches!(self, OrderType::Limit | OrderType::PostOnly)
    }
}

/// Side of the trade.
#[derive(Debug, Clone, Copy, PartialEq, Eq, Structural)]
pub enum TradeSide {
    Buy,
    Sell,
    Hold,
}

/// The code of a side.
pub open spec fn trade_side_code(s: TradeSide) -> i32 {
    match s {
        TradeSide::Buy => 0,
        TradeSide::Sell => 1,
        TradeSide::Hold => 2,
    }
}

/// The side with a given code.
pub open spec fn trade_side_of_code(val: i32) -> Option<TradeSide> {
    if val == 0 {
        Some(TradeSide::Buy)
    } else if val == 1 {
        Some(TradeSide::Sell)
    } else if val == 2 {
        Some(TradeSide::Hold)
    } else {
        None
    }
}

impl TradeSide {
    /// The side with code `val`, if any.
    pub fn from_i32(val: i32) -> (r: Option<Self>)
        ensures
            r == trade_side_of_code(val),
    {
        match val {
            0 => Some(TradeSide::Buy),
            1 => Some(TradeSide::Sell),
            2 => Some(TradeSide::Hold),
            _ => None,
        }
    }

    /// Whether the side is a hold (no trade).
    pub fn is_neutral(self) -> (r: bool)
        ensures
            r == (self == TradeSide::Hold),
    {
        matches!(self, TradeSide::Hold)
    }
}

/// Length in bytes of an encoded action.
pub const ACTION_FRAME_LEN: usize = 16;

/// An action as it travels: side, order type and asset index, with the
/// price offset (an `i16`) and the size fraction (an `f32`) carried as their
/// bytes in the machine's native order.
#[derive(Debug, Clone, Copy, PartialEq, Eq)]
pub struct ActionFrame {
    pub side: TradeSide,
    pub order_type: OrderType,
    pub price_offset_bytes: [u8; 2],
    pub size_fraction_bytes: [u8; 4],
    pub asset_idx: u8,
}

/// The encoding of a frame: side code, order-type code, the two offset
/// bytes, the four size bytes, the asset index, and seven reserved zero
/// bytes.
pub open spec fn frame_bytes(f: ActionFrame) -> Seq<u8> {
    seq![
        trade_side_code(f.side) as u8,
        order_type_code(f.order_type),
        f.price_offset_bytes[0],
        f.price_offset_bytes[1],
        f.size_fraction_bytes[0],
        f.size_fraction_bytes[1],
        f.size_fraction_bytes[2],
        f.size_fraction_bytes[3],
        f.asset_idx,
        0u8,
        0u8,
        0u8,
        0u8,
        0u8,
        0u8,
        0u8,
    ]
}

/// The frame a 16-byte buffer holds: `None` where the side or order-type
/// code is unknown; the reserved bytes are ignored.
pub open spec fn frame_of_bytes(b: Seq<u8>) -> Option<ActionFrame> {
    match (trade_side_of_code(b[0] as i32), order_type_of_code(b[1])) {
        (Some(side), Some(order_type)) => Some(ActionFrame {
            side,
            order_type,
            price_offset_bytes: [b[2], b[3]],
            size_fraction_bytes: [b[4], b[5], b[6], b[7]],
            asset_idx: b[8],
        }),
        _ => None,
    }
}

impl ActionFrame {
    /// The 16-byte encoding of this frame.
    pub fn encode(&self) -> (r: [u8; 16])
        ensures
            r@ == frame_bytes(*self),
    {
        let side: u8 = match self.side {
            TradeSide::Buy => 0,
            TradeSide::Sell => 1,
            TradeSide::Hold => 2,
        };
        let order_type: u8 = match self.order_type {
            OrderType::Market => 0,
            OrderType::Limit => 1,
            OrderType::PostOnly => 2,
            OrderType::IOC => 3,
            OrderType::FOK => 4,
        };
        let r: [u8; 16] = [
            side,
            order_type,
            self.price_offset_bytes[0],
            self.price_offset_bytes[1],
            self.size_fraction_bytes[0],
            self.size_fraction_bytes[1],
            self.size_fraction_bytes[2],
            self.size_fraction_bytes[3],
            self.asset_idx,
            0,
            0,
            0,
            0,
            0,
            0,
            0,
        ];
        assert(r@ =~= frame_bytes(*self));
        r
    }

    /// The frame held in `buf`, or `None` where its side or order-type code
    /// is unknown.
    pub fn decode(buf: &[u8; 16]) -> (r: Option<ActionFrame>)
        ensures
            r == frame_of_bytes(buf@),
    {
        let side = match TradeSide::from_i32(buf[0] as i32) {
            Some(s) => s,
            None => return None,
        };
        let order_type = match OrderType::from_u8(buf[1]) {
            Some(t) => t,
            None => return None,
        };
        let r = ActionFrame {
            side,
            order_type,
            price_offset_bytes: [buf[2], buf[3]],
            size_fraction_bytes: [buf[4], buf[5], buf[6], buf[7]],
            asset_idx: buf[8],
        };
        proof {
            assert(r.price_offset_bytes =~= [buf@[2], buf@[3]]);
            assert(r.size_fraction_bytes =~= [buf@[4], buf@[5], buf@[6], buf@[7]]);
        }
        Some(r)
    }
}

/// Decoding undoes encoding: every frame comes back unchanged from its
/// bytes; and a buffer that decodes encodes again to itself, except for the
/// reserved bytes, which come back as zero.
pub proof fn frame_roundtrip(f: ActionFrame, b: Seq<u8>)
    requires
        b.len() == ACTION_FRAME_LEN,
    ensures
        frame_bytes(f).len() == ACTION_FRAME_LEN,
        frame_of_bytes(frame_bytes(f)) == Some(f),
        frame_of_bytes(b) matches Some(g) ==> frame_bytes(g) =~= b.subrange(0, 9) + seq![0u8, 0u8, 0u8, 0u8, 0u8, 0u8, 0u8],
{
    assert(f.price_offset_bytes =~= [f.price_offset_bytes[0], f.price_offset_bytes[1]]);
    assert(f.size_fraction_bytes =~= [
        f.size_fraction_bytes[0],
        f.size_fraction_bytes[1],
        f.size_fraction_bytes[2],
        f.size_fraction_bytes[3],
    ]);
}

/// Codes decode to the value they encode: every order type and side
/// round-trips through its code, and only codes in range decode.
pub proof fn codes_roundtrip(t: OrderType, s: TradeSide, b: u8, i: i32)
    ensures
        order_type_of_code(order_type_code(t)) == Some(t),
        trade_side_of_code(trade_side_code(s)) == Some(s),
        order_type_of_code(b) is Some <==> b <= 4,
        trade_side_of_code(i) is Some <==> 0 <= i <= 2,
{
}

} // verus!
