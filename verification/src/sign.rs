//! The signing operation: begun on a key, fed with message bytes, and ended
//! with the HSM's answer.

use vstd::prelude::*;
use crate::encoding::{
    base64_decode, base64_decoded, base64_encodable, base64_encode, base64_encoded,
    ecdsa_der_parts, ecdsa_sig_from_der,
};
use crate::error::Error;
use crate::login::{LoginCtx, UserMode};
use crate::mechanism::{byte_width, MechMode, Mechanism, MechanismDescriptor, SignMode};
use crate::object::Object;

verus! {

/// `value` behind as many zero bytes as bring it to `width` bytes. Meant for
/// values of at most `width` bytes.
pub open spec fn left_padded(value: Seq<u8>, width: nat) -> Seq<u8> {
    Seq::new((width - value.len()) as nat, |i: int| 0u8) + value
}

/// `data` brought to exactly `size` bytes, right-aligned: a shorter message
/// gets leading zero bytes, of a longer one the last `size` bytes stay.
pub open spec fn normalized(data: Seq<u8>, size: nat) -> Seq<u8> {
    if data.len() >= size {
        data.subrange(data.len() - size, data.len() as int)
    } else {
        left_padded(data, size)
    }
}

/// The fixed-width form `r || s` of a signature, each half `width` bytes
/// wide; there is none where a half does not fit.
pub open spec fn fixed_width_pair(r: Seq<u8>, s: Seq<u8>, width: nat) -> Option<Seq<u8>> {
    if r.len() > width || s.len() > width {
        None
    } else {
        Some(left_padded(r, width) + left_padded(s, width))
    }
}

/// The message that goes to the HSM for `data` accumulated under
/// `mechanism` with a key of `key_size` bits.
pub open spec fn message_for(mechanism: Mechanism, key_size: Option<usize>, data: Seq<u8>) -> Seq<
    u8,
> {
    if mechanism.is_fixed_width() {
        normalized(data, byte_width(key_size))
    } else {
        data
    }
}

/// The signature handed to the caller for the HSM's base64 answer `answer`,
/// or nothing where the answer is malformed.
pub open spec fn signature_for(
    mechanism: Mechanism,
    key_size: Option<usize>,
    answer: Seq<char>,
) -> Option<Seq<u8>> {
    match base64_decoded(answer) {
        None => None,
        Some(raw) => if mechanism.is_fixed_width() {
            match ecdsa_der_parts(raw) {
                None => None,
                Some(parts) => fixed_width_pair(parts.0, parts.1, byte_width(key_size)),
            }
        } else {
            Some(raw)
        },
    }
}

/// Appends `count` zero bytes to `out`.
fn push_zeros(out: &mut Vec<u8>, count: usize)
    ensures
        final(out)@ == old(out)@ + Seq::new(count as nat, |i: int| 0u8),
{
    let mut i: usize = 0;
    while i < count
        invariant
            i <= count,
            out@ == old(out)@ + Seq::new(i as nat, |j: int| 0u8),
        decreases count - i,
    {
        out.push(0u8);
        i += 1;
        assert(out@ =~= old(out)@ + Seq::new(i as nat, |j: int| 0u8));
    }
}

/// Appends `src[from..]` to `out`.
fn push_tail(out: &mut Vec<u8>, src: &[u8], from: usize)
    requires
        from <= src@.len(),
    ensures
        final(out)@ == old(out)@ + src@.subrange(from as int, src@.len() as int),
{
    let mut i: usize = from;
    while i < src.len()
        invariant
            from <= i <= src@.len(),
            out@ == old(out)@ + src@.subrange(from as int, i as int),
        decreases src@.len() - i,
    {
        out.push(src[i]);
        i += 1;
        assert(out@ =~= old(out)@ + src@.subrange(from as int, i as int));
    }
}

/// Brings a message to exactly `size` bytes, right-aligned.
pub fn normalize_input(data: &[u8], size: usize) -> (out: Vec<u8>)
    ensures
        out@ == normalized(data@, size as nat),
        out@.len() == size,
{
    let mut out: Vec<u8> = Vec::new();
    if data.len() >= size {
        push_tail(&mut out, data, data.len() - size);
        assert(out@ =~= normalized(data@, size as nat));
    } else {
        push_zeros(&mut out, size - data.len());
        push_tail(&mut out, data, 0);
        assert(data@.subrange(0, data@.len() as int) =~= data@);
        assert(out@ =~= normalized(data@, size as nat));
    }
    out
}

/// Re-encodes the two integers of an ECDSA signature as the fixed-width
/// string `r || s`. Fails with `InvalidData` exactly where one of them is
/// longer than `width` bytes.
pub fn encode_fixed_width(r: &[u8], s: &[u8], width: usize) -> (out: Result<Vec<u8>, Error>)
    ensures
        match fixed_width_pair(r@, s@, width as nat) {
            Some(bytes) => out matches Ok(v) && v@ == bytes,
            None => out == Err::<Vec<u8>, Error>(Error::InvalidData),
        },
        out matches Ok(v) ==> v@.len() == 2 * width,
{
    if r.len() > width || s.len() > width {
        return Err(Error::InvalidData);
    }
    let mut out: Vec<u8> = Vec::new();
    push_zeros(&mut out, width - r.len());
    push_tail(&mut out, r, 0);
    push_zeros(&mut out, width - s.len());
    push_tail(&mut out, s, 0);
    proof {
        assert(r@.subrange(0, r@.len() as int) =~= r@);
        assert(s@.subrange(0, s@.len() as int) =~= s@);
        assert(out@ =~= left_padded(r@, width as nat) + left_padded(s@, width as nat));
    }
    Ok(out)
}

/// What the HSM is asked to sign.
#[derive(Clone, Debug, PartialEq)]
pub struct SignRequest {
    /// Identifier of the key on the HSM.
    pub key_id: String,
    pub mode: SignMode,
    /// The message, base64-encoded.
    pub message: String,
}

/// A signing operation between its start and its end.
#[derive(Clone, Debug)]
pub struct SignCtx {
    pub mechanism: Mechanism,
    pub sign_name: SignMode,
    pub key: Object,
    /// The message bytes received so far.
    pub data: Vec<u8>,
    /// The roles as they were when the operation began.
    pub login_ctx: LoginCtx,
}

impl SignCtx {
    /// Whether the message of this operation can be sent: its base64 text
    /// has a length that fits the machine's word. Holds of every operation
    /// with a fixed-width mechanism.
    pub open spec fn sendable(&self) -> bool {
        self.mechanism.is_fixed_width() || base64_encodable(self.data@.len())
    }

    /// Tells whether the message of this operation can be sent.
    pub fn can_send(&self) -> (out: bool)
        ensures
            out == self.sendable(),
    {
        match self.mechanism {
            Mechanism::Ecdsa => true,
            _ => self.data.len() / 3 <= (usize::MAX - 4) / 4,
        }
    }

    /// Whether a signing operation with `mechanism` can begin on `key`: the
    /// operator role is held, the mechanism signs, and the key allows it.
    pub open spec fn can_begin(mechanism: Mechanism, key: Object, login_ctx: LoginCtx) -> bool {
        &&& login_ctx.holds(UserMode::Operator)
        &&& mechanism.api_mech_of(MechMode::Sign) matches Some(api_mech) && key.allows(api_mech)
    }

    /// Whether `err` is the failure owed to an operation that cannot begin.
    /// The role is asked for first, then the mechanism, then the key.
    pub open spec fn refusal(
        mechanism: Mechanism,
        key: Object,
        login_ctx: LoginCtx,
        err: Error,
    ) -> bool {
        if !login_ctx.holds(UserMode::Operator) {
            err == Error::NotLoggedIn(UserMode::Operator)
        } else {
            match mechanism.api_mech_of(MechMode::Sign) {
                None => err == Error::InvalidMechanismForMode(MechMode::Sign, mechanism),
                Some(api_mech) => !key.allows(api_mech) && (err matches Error::InvalidMechanismForKey(
                    id,
                    kind,
                    m,
                ) && id@ == key.id@ && kind == key.kind && m == mechanism),
            }
        }
    }

    /// Begins a signing operation on `key`. The operator role is asked for
    /// first, then a mechanism that signs, then the key's permission; no
    /// call to the HSM is involved.
    pub fn init(mechanism: Mechanism, key: Object, login_ctx: LoginCtx) -> (out: Result<
        SignCtx,
        Error,
    >)
        ensures
            out is Ok <==> Self::can_begin(mechanism, key, login_ctx),
            out matches Err(err) ==> Self::refusal(mechanism, key, login_ctx, err),
            out matches Ok(ctx) ==> ctx.mechanism == mechanism && Some(ctx.sign_name)
                == mechanism.sign_mode_of() && ctx.key == key && ctx.data@ == Seq::<u8>::empty()
                && ctx.login_ctx == login_ctx,
    {
        if !login_ctx.can_run_mode(UserMode::Operator) {
            return Err(Error::NotLoggedIn(UserMode::Operator));
        }
        let sign_name = match mechanism.sign_name() {
            Some(mode) => mode,
            None => {
                return Err(Error::InvalidMechanismForMode(MechMode::Sign, mechanism));
            },
        };
        let descriptor = match MechanismDescriptor::resolve(mechanism, MechMode::Sign) {
            Ok(descriptor) => descriptor,
            Err(err) => {
                return Err(err);
            },
        };
        match descriptor.validate_against_key(&key) {
            Ok(()) => {},
            Err(err) => {
                return Err(err);
            },
        }
        Ok(SignCtx { mechanism, sign_name, key, data: Vec::new(), login_ctx })
    }

    /// Appends `data` to the message.
    pub fn update(&mut self, data: &[u8])
        ensures
            final(self).data@ == old(self).data@ + data@,
            final(self).mechanism == old(self).mechanism,
            final(self).sign_name == old(self).sign_name,
            final(self).key == old(self).key,
            final(self).login_ctx == old(self).login_ctx,
    {
        push_tail(&mut self.data, data, 0);
        assert(data@.subrange(0, data@.len() as int) =~= data@);
    }

    /// The request that ends the operation: the key, the sign mode, and the
    /// base64 text of the message. Under a fixed-width mechanism the message
    /// is first brought to the mechanism's input size.
    pub fn sign_request(&self) -> (out: SignRequest)
        requires
            self.sendable(),
        ensures
            out.key_id@ == self.key.id@,
            out.mode == self.sign_name,
            out.message@ == base64_encoded(
                message_for(self.mechanism, self.key.size, self.data@),
            ),
    {
        let message = match self.mechanism {
            Mechanism::Ecdsa => {
                let size: usize = self.mechanism.get_input_size(self.key.size);
                let input = normalize_input(self.data.as_slice(), size);
                base64_encode(input.as_slice())
            },
            _ => base64_encode(self.data.as_slice()),
        };
        SignRequest { key_id: self.key.id.clone(), mode: self.sign_name, message }
    }

    /// The request that ends the operation, where its message can be sent,
    /// and nothing where it cannot.
    pub fn checked_sign_request(&self) -> (out: Option<SignRequest>)
        ensures
            out is Some <==> self.sendable(),
            out matches Some(request) ==> request.key_id@ == self.key.id@ && request.mode
                == self.sign_name && request.message@ == base64_encoded(
                message_for(self.mechanism, self.key.size, self.data@),
            ),
    {
        if self.can_send() {
            Some(self.sign_request())
        } else {
            None
        }
    }

    /// Ends the operation with the HSM's answer to the request, and uses
    /// the operation up. A failure of the backend is handed on as it is.
    /// Otherwise the answer is decoded; under a fixed-width mechanism it is
    /// taken for a DER signature and re-encoded as `r || s`. A malformed
    /// answer is `InvalidData`.
    pub fn sign_final(self, answer: Result<String, Error>) -> (out: Result<Vec<u8>, Error>)
        ensures
            match answer {
                Err(err) => out == Err::<Vec<u8>, Error>(err),
                Ok(text) => match signature_for(self.mechanism, self.key.size, text@) {
                    Some(bytes) => out matches Ok(v) && v@ == bytes,
                    None => out == Err::<Vec<u8>, Error>(Error::InvalidData),
                },
            },
            self.mechanism.is_fixed_width() ==> (out matches Ok(v) ==> v@.len()
                == self.mechanism.signature_size_of(self.key.size)),
    {
        let text = match answer {
            Ok(text) => text,
            Err(err) => {
                return Err(err);
            },
        };
        let raw = match base64_decode(text.as_str()) {
            Ok(raw) => raw,
            Err(_) => {
                return Err(Error::InvalidData);
            },
        };
        match self.mechanism {
            Mechanism::Ecdsa => {
                let parts = match ecdsa_sig_from_der(raw.as_slice()) {
                    Ok(parts) => parts,
                    Err(_) => {
                        return Err(Error::InvalidData);
                    },
                };
                let width: usize = self.mechanism.get_key_size(self.key.size);
                encode_fixed_width(parts.0.as_slice(), parts.1.as_slice(), width)
            },
            _ => Ok(raw),
        }
    }

    /// Length of the signature that this operation will yield, known without
    /// asking the HSM.
    pub fn get_theoretical_size(&self) -> (out: usize)
        ensures
            out == self.mechanism.signature_size_of(self.key.size),
    {
        self.mechanism.get_signature_size(self.key.size)
    }
}

/// A message under a fixed-width mechanism goes out right-aligned in
/// exactly `size` bytes: where it is shorter, as many zero bytes as are
/// missing come first; where it is longer, only its last `size` bytes go.
pub proof fn normalized_is_right_aligned(data: Seq<u8>, size: nat)
    ensures
        normalized(data, size).len() == size,
        forall|i: int|
            0 <= i < size ==> #[trigger] normalized(data, size)[i] == if i + data.len() < size {
                0u8
            } else {
                data[i + data.len() - size]
            },
{
}

/// In the fixed-width form each half holds its integer right-aligned behind
/// zero bytes, whatever the length that the integer came in.
pub proof fn fixed_width_pair_is_padded(r: Seq<u8>, s: Seq<u8>, width: nat)
    requires
        r.len() <= width,
        s.len() <= width,
    ensures
        fixed_width_pair(r, s, width) matches Some(bytes) && bytes.len() == 2 * width && (forall|
            i: int,
        |
            0 <= i < width ==> #[trigger] bytes[i] == if i + r.len() < width {
                0u8
            } else {
                r[i + r.len() - width]
            }) && (forall|i: int|
            0 <= i < width ==> #[trigger] bytes[width + i] == if i + s.len() < width {
                0u8
            } else {
                s[i + s.len() - width]
            }),
{
}

/// Under a fixed-width mechanism every signature handed out has the length
/// that is announced beforehand, twice the byte width of the key, however
/// short the integers in the HSM's answer are.
pub proof fn fixed_width_signature_size(
    mechanism: Mechanism,
    key_size: Option<usize>,
    answer: Seq<char>,
)
    requires
        mechanism.is_fixed_width(),
    ensures
        signature_for(mechanism, key_size, answer) matches Some(bytes) ==> bytes.len()
            == mechanism.signature_size_of(key_size) && bytes.len() == 2 * byte_width(key_size),
{
}

} // verus!
