//! Laws of the session protocol, stated over any implementation of the
//! session contract and checked against nothing but that contract.

use vstd::prelude::*;
use crate::api::{FlowFile, ProcessSession};

verus! {

/// Draining a queue of length N takes N calls to `get`, which yield the
/// queued flow files in arrival order, and one more call, which yields
/// `None`: exactly that last call is made by the loop below before it stops.
/// Nothing is routed by draining.
pub fn drain_inputs<S: ProcessSession>(session: &mut S) -> (r: Vec<S::FlowFileImpl>)
    ensures
        r@.len() == old(session).queued().len(),
        forall|i: int| 0 <= i < r@.len() ==> r@[i].content() == old(session).queued()[i],
        final(session).queued().len() == 0,
        final(session).transferred() == old(session).transferred(),
{
    let mut out: Vec<S::FlowFileImpl> = Vec::new();
    proof {
        assert(session.queued() =~= old(session).queued().subrange(
            0,
            old(session).queued().len() as int,
        ));
    }
    loop
        invariant
            out@.len() <= old(session).queued().len(),
            session.queued() == old(session).queued().subrange(
                out@.len() as int,
                old(session).queued().len() as int,
            ),
            forall|i: int| 0 <= i < out@.len() ==> out@[i].content() == old(session).queued()[i],
            session.transferred() == old(session).transferred(),
        ensures
            session.queued().len() == 0,
        decreases session.queued().len(),
    {
        let ghost taken: int = out@.len() as int;
        let ghost total: int = old(session).queued().len() as int;
        match session.get() {
            Some(ff) => {
                proof {
                    assert(old(session).queued().subrange(taken, total)[0] == old(
                        session,
                    ).queued()[taken]);
                    assert(old(session).queued().subrange(taken, total).drop_first() =~= old(
                        session,
                    ).queued().subrange(taken + 1, total));
                }
                out.push(ff);
            },
            None => {
                break ;
            },
        }
    }
    out
}

/// Round trip: writing a content and immediately reading the same handle
/// back yields exactly that content, whatever the session implementation.
pub fn write_then_read<S: ProcessSession>(
    session: &mut S,
    flow_file: &mut S::FlowFileImpl,
    content: &str,
) -> (r: String)
    ensures
        r@ == content@,
        final(flow_file).content() == content@,
        final(session).queued() == old(session).queued(),
        final(session).transferred() == old(session).transferred(),
{
    session.write(flow_file, content);
    let read_back = session.read(flow_file);
    proof {
        assert(read_back is Some);
    }
    read_back.unwrap()
}

} // verus!
