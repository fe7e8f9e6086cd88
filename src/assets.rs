//! Binary assets loaded once at startup and handed out, unchanged, by the
//! commands that attach them.
use vstd::prelude::*;

verus! {

/// A file's bytes, with the name it is attached under.
pub struct NamedAsset {
    pub data: Vec<u8>,
    pub filename: String,
}

impl NamedAsset {
    pub fn new(data: Vec<u8>, filename: String) -> (r: NamedAsset)
        ensures
            r.data@ == data@,
            r.filename@ == filename@,
    {
        NamedAsset { data, filename }
    }
}

/// What every command may read: filled before the first command runs, never
/// written afterwards.
pub struct Resources {
    pub gimper: NamedAsset,
}

/// The name the gimper picture is attached under.
pub open spec fn gimper_filename() -> Seq<char> {
    "gimper.jpg"@
}

impl Resources {
    /// The shared resources, around the bytes of the gimper picture.
    pub fn new(gimper_bytes: Vec<u8>) -> (r: Resources)
        ensures
            r.gimper.data@ == gimper_bytes@,
            r.gimper.filename@ == gimper_filename(),
    {
        Resources { gimper: NamedAsset::new(gimper_bytes, String::from_str("gimper.jpg")) }
    }
}

/// A reply that carries exactly the gimper asset of `res`.
pub open spec fn is_gimper_reply(res: &Resources, reply: &NamedAsset) -> bool {
    reply.data@ == res.gimper.data@ && reply.filename@ == res.gimper.filename@
}

fn copy_bytes(bytes: &Vec<u8>) -> (r: Vec<u8>)
    ensures
        r@ == bytes@,
{
    let mut out: Vec<u8> = Vec::with_capacity(bytes.len());
    let mut i: usize = 0;
    while i < bytes.len()
        invariant
            i <= bytes.len(),
            out@ == bytes@.subrange(0, i as int),
        decreases bytes.len() - i,
    {
        out.push(bytes[i]);
        i = i + 1;
    }
    assert(out@ =~= bytes@);
    out
}

/// The attachment that the `gimper` command sends: the asset loaded at
/// startup, byte for byte and under its own name. The shared resources are
/// only read.
pub fn gimper(res: &Resources) -> (r: NamedAsset)
    ensures
        is_gimper_reply(res, &r),
{
    NamedAsset::new(copy_bytes(&res.gimper.data), res.gimper.filename.clone())
}

/// Any two replies of the `gimper` command on the same shared resources,
/// however many calls were made and in whatever order, are identical.
pub proof fn lemma_gimper_replies_agree(res: &Resources, a: &NamedAsset, b: &NamedAsset)
    requires
        is_gimper_reply(res, a),
        is_gimper_reply(res, b),
    ensures
        a.data@ == b.data@,
        a.filename@ == b.filename@,
{
}

} // verus!
