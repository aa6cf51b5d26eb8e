use vstd::prelude::*;

verus! {

/// The size of the transfer buffer that the outbound source is read into.
pub const BUFFER_SIZE: usize = 1048576;

/// What the outbound pump does after one read of the local byte source:
/// `read` is the count of bytes read into `buffer`, or `None` for a read
/// error. It forwards those bytes as one chunk, neither split nor joined
/// to another, or stops (`None`) at end of data or on an error.
pub fn next_chunk(read: Option<usize>, buffer: &[u8]) -> (r: Option<Vec<u8>>)
    requires
        read matches Some(n) ==> n <= buffer@.len(),
    ensures
        r is None <==> (read is None || read == Some(0usize)),
        r matches Some(c) ==> c@ == buffer@.subrange(0, read->0 as int),
{
    match read {
        None => None,
        Some(n) => if n == 0 {
            None
        } else {
            let mut chunk: Vec<u8> = Vec::with_capacity(n);
            let mut i: usize = 0;
            while i < n
                invariant
                    n <= buffer@.len(),
                    i <= n,
                    chunk@ == buffer@.subrange(0, i as int),
                decreases n - i,
            {
                chunk.push(buffer[i]);
                i = i + 1;
            }
            Some(chunk)
        },
    }
}

} // verus!
