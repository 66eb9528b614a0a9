use vstd::prelude::*;

verus! {

/// Which family of records a key addresses.
#[derive(Clone, Copy, Debug, PartialEq, Eq, Structural)]
pub enum Namespace {
    /// Trades of the escrow.
    Booth,
    /// Royalty streams.
    Stream,
    /// Recipient lists of royalty streams.
    StreamRecipients,
}

/// The address of one record in the shared record store.
#[derive(Clone, Copy, Debug, PartialEq, Eq, Structural)]
pub struct StoreKey {
    pub namespace: Namespace,
    pub id: u64,
}

/// The tag that opens a key of `ns`. Both registry families share the first
/// byte; recipient lists carry a second one so as not to meet the stream of
/// the same id.
pub open spec fn namespace_tag(ns: Namespace) -> Seq<u8> {
    match ns {
        Namespace::Booth => seq![1u8],
        Namespace::Stream => seq![2u8, 0u8],
        Namespace::StreamRecipients => seq![2u8, 1u8],
    }
}

/// The byte of `id` that starts `shift` bits up.
pub open spec fn byte_at(id: u64, shift: u64) -> u8 {
    (#[verifier::truncate] (((id >> shift) & 0xffu64) as u8))
}

/// `id` as eight bytes, most significant first.
pub open spec fn id_bytes(id: u64) -> Seq<u8> {
    seq![
        byte_at(id, 56),
        byte_at(id, 48),
        byte_at(id, 40),
        byte_at(id, 32),
        byte_at(id, 24),
        byte_at(id, 16),
        byte_at(id, 8),
        byte_at(id, 0),
    ]
}

/// The serialised form of a key: its namespace tag, then its id.
pub open spec fn key_bytes(k: StoreKey) -> Seq<u8> {
    namespace_tag(k.namespace) + id_bytes(k.id)
}

/// Two keys serialise alike only when they are the same key, so no record of
/// one family can land on a record of another.
pub proof fn lemma_key_bytes_injective(a: StoreKey, b: StoreKey)
    ensures
        key_bytes(a) == key_bytes(b) ==> a == b,
{
    if key_bytes(a) == key_bytes(b) {
        let ta = namespace_tag(a.namespace);
        let tb = namespace_tag(b.namespace);
        assert(key_bytes(a).len() == key_bytes(b).len());
        assert(ta.len() == tb.len());
        assert(key_bytes(a)[0] == key_bytes(b)[0]);
        if ta.len() == 2 {
            assert(key_bytes(a)[1] == key_bytes(b)[1]);
        }
        assert(a.namespace == b.namespace);
        let n = ta.len() as int;
        assert forall|i: int| 0 <= i < 8 implies id_bytes(a.id)[i] == id_bytes(b.id)[i] by {
            assert(key_bytes(a)[n + i] == key_bytes(b)[n + i]);
        }
        let (x, y) = (a.id, b.id);
        assert(id_bytes(x)[0] == id_bytes(y)[0]);
        assert(id_bytes(x)[1] == id_bytes(y)[1]);
        assert(id_bytes(x)[2] == id_bytes(y)[2]);
        assert(id_bytes(x)[3] == id_bytes(y)[3]);
        assert(id_bytes(x)[4] == id_bytes(y)[4]);
        assert(id_bytes(x)[5] == id_bytes(y)[5]);
        assert(id_bytes(x)[6] == id_bytes(y)[6]);
        assert(id_bytes(x)[7] == id_bytes(y)[7]);
        assert(x == y) by (bit_vector)
            requires
                ((x >> 56u64) & 0xffu64) as u8 == ((y >> 56u64) & 0xffu64) as u8,
                ((x >> 48u64) & 0xffu64) as u8 == ((y >> 48u64) & 0xffu64) as u8,
                ((x >> 40u64) & 0xffu64) as u8 == ((y >> 40u64) & 0xffu64) as u8,
                ((x >> 32u64) & 0xffu64) as u8 == ((y >> 32u64) & 0xffu64) as u8,
                ((x >> 24u64) & 0xffu64) as u8 == ((y >> 24u64) & 0xffu64) as u8,
                ((x >> 16u64) & 0xffu64) as u8 == ((y >> 16u64) & 0xffu64) as u8,
                ((x >> 8u64) & 0xffu64) as u8 == ((y >> 8u64) & 0xffu64) as u8,
                ((x >> 0u64) & 0xffu64) as u8 == ((y >> 0u64) & 0xffu64) as u8,
        ;
    }
}

/// The key of the trade `id`.
pub fn trade_key(id: u64) -> (r: StoreKey)
    ensures
        r == (StoreKey { namespace: Namespace::Booth, id }),
{
    StoreKey { namespace: Namespace::Booth, id }
}

/// The key of the royalty stream `id`.
pub fn stream_key(id: u64) -> (r: StoreKey)
    ensures
        r == (StoreKey { namespace: Namespace::Stream, id }),
{
    StoreKey { namespace: Namespace::Stream, id }
}

/// The key of the recipient list of the royalty stream `id`.
pub fn recipients_key(id: u64) -> (r: StoreKey)
    ensures
        r == (StoreKey { namespace: Namespace::StreamRecipients, id }),
{
    StoreKey { namespace: Namespace::StreamRecipients, id }
}

impl StoreKey {
    /// The key's serialised form, as the record store is addressed by it.
    pub fn to_bytes(&self) -> (r: Vec<u8>)
        ensures
            r@ == key_bytes(*self),
    {
        let mut out: Vec<u8> = Vec::new();
        match self.namespace {
            Namespace::Booth => {
                out.push(1u8);
            },
            Namespace::Stream => {
                out.push(2u8);
                out.push(0u8);
            },
            Namespace::StreamRecipients => {
                out.push(2u8);
                out.push(1u8);
            },
        }
        let id = self.id;
        out.push(#[verifier::truncate] (((id >> 56u64) & 0xffu64) as u8));
        out.push(#[verifier::truncate] (((id >> 48u64) & 0xffu64) as u8));
        out.push(#[verifier::truncate] (((id >> 40u64) & 0xffu64) as u8));
        out.push(#[verifier::truncate] (((id >> 32u64) & 0xffu64) as u8));
        out.push(#[verifier::truncate] (((id >> 24u64) & 0xffu64) as u8));
        out.push(#[verifier::truncate] (((id >> 16u64) & 0xffu64) as u8));
        out.push(#[verifier::truncate] (((id >> 8u64) & 0xffu64) as u8));
        out.push(#[verifier::truncate] (((id >> 0u64) & 0xffu64) as u8));
        assert(out@ =~= key_bytes(*self));
        out
    }
}

} // verus!
