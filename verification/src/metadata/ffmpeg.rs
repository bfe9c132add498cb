//! Cover art: the picture attached to one of a container's streams.

use vstd::prelude::*;

verus! {

/// What one stream of a container says about an attached picture.
#[derive(Debug)]
pub struct StreamPicture {
    /// Whether the stream's disposition marks it as an attached picture.
    pub attached: bool,
    /// The bytes of the stream's attached-picture packet.
    pub data: Vec<u8>,
}

/// Index of the first stream marked as an attached picture, if there is
/// one.
pub open spec fn first_attached(streams: Seq<StreamPicture>) -> Option<int>
    decreases streams.len(),
{
    if streams.len() == 0 {
        None
    } else if streams[0].attached {
        Some(0)
    } else {
        match first_attached(streams.drop_first()) {
            Some(i) => Some(i + 1),
            None => None,
        }
    }
}

/// `first_attached` finds a marked stream before which none is marked, and
/// finds none only where no stream is marked.
pub proof fn lemma_first_attached(streams: Seq<StreamPicture>)
    ensures
        match first_attached(streams) {
            Some(i) => {
                &&& 0 <= i < streams.len()
                &&& streams[i].attached
                &&& forall|j: int| 0 <= j < i ==> !(#[trigger] streams[j]).attached
            },
            None => forall|j: int| 0 <= j < streams.len() ==> !(#[trigger] streams[j]).attached,
        },
    decreases streams.len(),
{
    if streams.len() > 0 && !streams[0].attached {
        let rest = streams.drop_first();
        lemma_first_attached(rest);
        match first_attached(rest) {
            Some(i) => {
                assert forall|j: int| 0 <= j < i + 1 implies !(#[trigger] streams[j]).attached by {
                    if j > 0 {
                        assert(streams[j] == rest[j - 1]);
                    }
                }
            },
            None => {
                assert forall|j: int| 0 <= j < streams.len() implies !(#[trigger] streams[
                    j
                ]).attached by {
                    if j > 0 {
                        assert(streams[j] == rest[j - 1]);
                    }
                }
            },
        }
    }
}

/// The picture of the first stream marked as an attached picture: a copy
/// of its bytes, or `None` where no stream is marked.
pub fn first_picture_from_input_context(streams: &[StreamPicture]) -> (picture: Option<Vec<u8>>)
    ensures
        match first_attached(streams@) {
            Some(i) => picture matches Some(bytes) && bytes@ == streams@[i].data@,
            None => picture is None,
        },
{
    let n: usize = streams.len();
    let mut index: usize = 0;
    while index < n
        invariant
            n == streams@.len(),
            index <= n,
            forall|j: int| 0 <= j < index ==> !(#[trigger] streams@[j]).attached,
        decreases n - index,
    {
        if streams[index].attached {
            proof {
                lemma_first_attached(streams@);
            }
            return Some(streams[index].data.clone());
        }
        index += 1;
    }
    proof {
        lemma_first_attached(streams@);
    }
    None
}

} // verus!
