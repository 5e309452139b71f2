//! The packed 16-bit move representation stored in book records.
//!
//! Counting from the least significant bit, a packed move holds the
//! destination file in bits 0-2, the destination rank in bits 3-5, the origin
//! file in bits 6-8, the origin rank in bits 9-11 and the promotion code in
//! bits 12-14. Bit 15 is reserved and ignored. The all-zero word stands for
//! "no move".

use vstd::prelude::*;

verus! {

/// The piece a pawn promotes to, if the move is a promotion.
#[derive(Debug, Clone, Copy, PartialEq, Eq, Structural)]
pub enum Promotion {
    NoPromotion,
    Knight,
    Bishop,
    Rook,
    Queen,
}

impl Promotion {
    /// The three-bit code that stands for this promotion in a packed move.
    pub open spec fn spec_code(self) -> u16 {
        match self {
            Promotion::NoPromotion => 0,
            Promotion::Knight => 1,
            Promotion::Bishop => 2,
            Promotion::Rook => 3,
            Promotion::Queen => 4,
        }
    }

    /// The promotion a three-bit code stands for; codes 5 to 7 stand for none.
    pub open spec fn spec_from_code(code: u8) -> Option<Promotion> {
        if code == 0 {
            Some(Promotion::NoPromotion)
        } else if code == 1 {
            Some(Promotion::Knight)
        } else if code == 2 {
            Some(Promotion::Bishop)
        } else if code == 3 {
            Some(Promotion::Rook)
        } else if code == 4 {
            Some(Promotion::Queen)
        } else {
            None
        }
    }

    #[verifier::when_used_as_spec(spec_code)]
    pub fn code(self) -> (c: u16)
        ensures
            c == self.spec_code(),
            c <= 4,
    {
        match self {
            Promotion::NoPromotion => 0,
            Promotion::Knight => 1,
            Promotion::Bishop => 2,
            Promotion::Rook => 3,
            Promotion::Queen => 4,
        }
    }

    pub fn from_code(code: u8) -> (r: Option<Promotion>)
        ensures
            r == Self::spec_from_code(code),
            r is Some <==> code <= 4,
            r matches Some(p) ==> p.spec_code() == code,
    {
        match code {
            0 => Some(Promotion::NoPromotion),
            1 => Some(Promotion::Knight),
            2 => Some(Promotion::Bishop),
            3 => Some(Promotion::Rook),
            4 => Some(Promotion::Queen),
            _ => None,
        }
    }
}

/// A move in plain coordinates: files and ranks run from 0 (file a, rank 1)
/// to 7 (file h, rank 8).
#[derive(Debug, Clone, Copy, PartialEq, Eq, Structural)]
pub struct DecodedMove {
    pub from_file: u8,
    pub from_rank: u8,
    pub to_file: u8,
    pub to_rank: u8,
    pub promotion: Promotion,
}

/// Why a packed move could not be decoded.
#[derive(Debug, Clone, Copy, PartialEq, Eq, Structural)]
pub enum DecodeError {
    /// Bits 12-14 hold a code that stands for no promotion piece.
    InvalidPromotionCode { code: u8 },
}

/// The three-bit field of `packed` whose lowest bit is bit `shift`.
pub open spec fn field(packed: u16, shift: u16) -> u8 {
    ((packed >> shift) & 7) as u8
}

/// What a packed move decodes to: `Ok(None)` for the all-zero word, the move
/// its five fields spell for promotion codes 0 to 4, an error for codes 5 to 7.
pub open spec fn decoded(packed: u16) -> Result<Option<DecodedMove>, DecodeError> {
    if packed == 0 {
        Ok(None)
    } else {
        match Promotion::spec_from_code(field(packed, 12)) {
            Some(promotion) => Ok(
                Some(
                    DecodedMove {
                        from_file: field(packed, 6),
                        from_rank: field(packed, 9),
                        to_file: field(packed, 0),
                        to_rank: field(packed, 3),
                        promotion,
                    },
                ),
            ),
            None => Err(DecodeError::InvalidPromotionCode { code: field(packed, 12) }),
        }
    }
}

/// The packed word of a move: each field shifted to its place, bit 15 clear.
pub open spec fn encoded(m: DecodedMove) -> u16 {
    (m.promotion.spec_code() << 12) | ((m.from_rank as u16) << 9) | ((m.from_file as u16) << 6)
        | ((m.to_rank as u16) << 3) | (m.to_file as u16)
}

/// Reads the three-bit field of `packed` that starts at bit `shift`.
fn extract(packed: u16, shift: u16) -> (r: u8)
    requires
        shift <= 12,
    ensures
        r == field(packed, shift),
        r <= 7,
{
    let bits: u16 = (packed >> shift) & 7;
    assert(bits <= 7) by (bit_vector)
        requires
            bits == (packed >> shift) & 7,
    ;
    bits as u8
}

impl DecodedMove {
    /// Every coordinate names a file or rank of the board.
    pub open spec fn wf(self) -> bool {
        &&& self.from_file <= 7
        &&& self.from_rank <= 7
        &&& self.to_file <= 7
        &&& self.to_rank <= 7
    }

    /// Whether this is the one well-formed move whose packed word is zero:
    /// a1 to a1 without promotion, which the format reserves for "no move".
    pub open spec fn is_null(self) -> bool {
        &&& self.from_file == 0
        &&& self.from_rank == 0
        &&& self.to_file == 0
        &&& self.to_rank == 0
        &&& self.promotion == Promotion::NoPromotion
    }

    /// Decodes a packed move. The all-zero word is "no move" and gives
    /// `Ok(None)`; promotion codes 5 to 7 give an error.
    pub fn decode(packed: u16) -> (r: Result<Option<DecodedMove>, DecodeError>)
        ensures
            r == decoded(packed),
            packed == 0 ==> r == Ok::<Option<DecodedMove>, DecodeError>(None),
            r matches Ok(Some(m)) ==> m.wf() && packed != 0,
            r matches Err(DecodeError::InvalidPromotionCode { code }) ==> 5 <= code <= 7 && code
                == field(packed, 12),
            r is Err <==> field(packed, 12) >= 5,
    {
        if packed == 0 {
            assert(field(0, 12) == 0) by (bit_vector);
            return Ok(None);
        }
        let to_file = extract(packed, 0);
        let to_rank = extract(packed, 3);
        let from_file = extract(packed, 6);
        let from_rank = extract(packed, 9);
        let code = extract(packed, 12);
        match Promotion::from_code(code) {
            Some(promotion) => Ok(
                Some(DecodedMove { from_file, from_rank, to_file, to_rank, promotion }),
            ),
            None => Err(DecodeError::InvalidPromotionCode { code }),
        }
    }

    /// Packs the move into its 16-bit word.
    pub fn encode(&self) -> (packed: u16)
        requires
            self.wf(),
        ensures
            packed == encoded(*self),
            packed == 0 <==> self.is_null(),
    {
        let code = self.promotion.code();
        let from_rank = self.from_rank as u16;
        let from_file = self.from_file as u16;
        let to_rank = self.to_rank as u16;
        let to_file = self.to_file as u16;
        let packed = (code << 12) | (from_rank << 9) | (from_file << 6) | (to_rank << 3) | to_file;
        assert(packed == 0 <==> (code == 0 && from_rank == 0 && from_file == 0 && to_rank == 0
            && to_file == 0)) by (bit_vector)
            requires
                code <= 4,
                from_rank <= 7,
                from_file <= 7,
                to_rank <= 7,
                to_file <= 7,
                packed == (code << 12) | (from_rank << 9) | (from_file << 6) | (to_rank << 3)
                    | to_file,
        ;
        packed
    }
}

/// Decoding undoes encoding: a well-formed move comes back from its packed
/// word unchanged, except the move a1 to a1 without promotion, whose packed
/// word is zero and therefore reads as "no move".
pub proof fn lemma_decode_encode(m: DecodedMove)
    requires
        m.wf(),
    ensures
        !m.is_null() ==> decoded(encoded(m)) == Ok::<Option<DecodedMove>, DecodeError>(Some(m)),
        m.is_null() ==> encoded(m) == 0 && decoded(encoded(m)) == Ok::<
            Option<DecodedMove>,
            DecodeError,
        >(None),
{
    let c = m.promotion.spec_code();
    let fr = m.from_rank as u16;
    let ff = m.from_file as u16;
    let tr = m.to_rank as u16;
    let tf = m.to_file as u16;
    let p = encoded(m);
    assert(c <= 4);
    assert({
        &&& (p >> 0u16) & 7 == tf
        &&& (p >> 3u16) & 7 == tr
        &&& (p >> 6u16) & 7 == ff
        &&& (p >> 9u16) & 7 == fr
        &&& (p >> 12u16) & 7 == c
        &&& (p == 0 <==> (c == 0 && fr == 0 && ff == 0 && tr == 0 && tf == 0))
    }) by (bit_vector)
        requires
            c <= 4,
            fr <= 7,
            ff <= 7,
            tr <= 7,
            tf <= 7,
            p == (c << 12) | (fr << 9) | (ff << 6) | (tr << 3) | tf,
    ;
    assert(Promotion::spec_from_code(c as u8) == Some(m.promotion));
}

/// A packed word with promotion code 5, 6 or 7 never decodes.
pub proof fn lemma_invalid_promotion(packed: u16)
    requires
        field(packed, 12) >= 5,
    ensures
        decoded(packed) == Err::<Option<DecodedMove>, DecodeError>(
            DecodeError::InvalidPromotionCode { code: field(packed, 12) },
        ),
{
    assert(packed != 0) by {
        assert(field(0, 12) == 0) by (bit_vector);
    }
}

} // verus!
