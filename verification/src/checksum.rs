//! The checksum of an installed file: MD5 over its bytes, fed block by
//! block, in lowercase hexadecimal.

use vstd::prelude::*;

verus! {

/// The size of the blocks in which a file is read for hashing.
pub const HASH_BLOCK_SIZE: usize = 8192;

/// The running state of an MD5 computation, from the `md5` crate.
#[verifier::external_type_specification]
#[verifier::external_body]
pub struct ExMd5Context(md5::Context);

/// The bytes that a running MD5 computation has consumed so far, in order.
pub uninterp spec fn consumed(ctx: md5::Context) -> Seq<u8>;

/// The MD5 digest of the bytes `data`, as `md5::Context::compute` computes
/// it and as `{:x}` writes a `md5::Digest`.
pub uninterp spec fn md5_hex(data: Seq<u8>) -> Seq<char>;

/// A text of 32 lowercase hexadecimal digits.
pub open spec fn is_md5_text(s: Seq<char>) -> bool {
    s.len() == 32 && forall|i: int|
        0 <= i < s.len() ==> (('0' <= #[trigger] s[i] && s[i] <= '9') || ('a' <= s[i] && s[i]
            <= 'f'))
}

/// `md5::Context::new` starts a computation that has consumed nothing.
#[verifier::external_body]
fn md5_start() -> (ctx: md5::Context)
    ensures
        consumed(ctx) == Seq::<u8>::empty(),
{
    md5::Context::new()
}

/// `md5::Context::consume` feeds the bytes of `data` to the computation,
/// after those that it has consumed before.
#[verifier::external_body]
fn md5_feed(ctx: &mut md5::Context, data: &[u8])
    ensures
        consumed(*final(ctx)) == consumed(*old(ctx)) + data@,
{
    ctx.consume(data)
}

/// `md5::Context::compute` finishes the computation; the digest of all
/// consumed bytes is written with `{:x}`, two lowercase hexadecimal digits
/// for each of its 16 bytes.
#[verifier::external_body]
fn md5_finish(ctx: md5::Context) -> (r: String)
    ensures
        r@ == md5_hex(consumed(ctx)),
        is_md5_text(r@),
{
    format!("{:x}", ctx.compute())
}

/// A checksum in the making.
pub struct FileHasher {
    ctx: md5::Context,
}

impl View for FileHasher {
    type V = Seq<u8>;

    closed spec fn view(&self) -> Seq<u8> {
        consumed(self.ctx)
    }
}

impl FileHasher {
    /// A hasher that has seen no byte.
    pub fn new() -> (h: FileHasher)
        ensures
            h@ == Seq::<u8>::empty(),
    {
        FileHasher { ctx: md5_start() }
    }

    /// Feeds one block of the file.
    pub fn update(&mut self, block: &[u8])
        ensures
            final(self)@ == old(self)@ + block@,
    {
        md5_feed(&mut self.ctx, block);
    }

    /// The checksum of all bytes fed, as 32 lowercase hexadecimal digits.
    pub fn finish(self) -> (r: String)
        ensures
            r@ == md5_hex(self@),
            is_md5_text(r@),
    {
        md5_finish(self.ctx)
    }
}

/// The name of the checksum algorithm.
pub fn checksum_kind() -> (s: &'static str)
    ensures
        s@ == "md5"@,
{
    "md5"
}

/// The checksum of a file whose content is the blocks in order.
pub fn checksum_of_blocks(blocks: &Vec<Vec<u8>>) -> (r: String)
    ensures
        r@ == md5_hex(concat_blocks(blocks@)),
        is_md5_text(r@),
{
    let mut h = FileHasher::new();
    let mut i: usize = 0;
    assert(blocks@.take(0) =~= Seq::<Vec<u8>>::empty());
    while i < blocks.len()
        invariant
            i <= blocks.len(),
            h@ == concat_blocks(blocks@.take(i as int)),
        decreases blocks.len() - i,
    {
        assert(blocks@.take(i + 1).drop_last() =~= blocks@.take(i as int));
        h.update(blocks[i].as_slice());
        i += 1;
    }
    assert(blocks@.take(blocks.len() as int) =~= blocks@);
    h.finish()
}

/// The bytes of the blocks, one block after the other.
pub open spec fn concat_blocks(blocks: Seq<Vec<u8>>) -> Seq<u8>
    decreases blocks.len(),
{
    if blocks.len() == 0 {
        Seq::<u8>::empty()
    } else {
        concat_blocks(blocks.drop_last()) + blocks.last()@
    }
}

} // verus!
