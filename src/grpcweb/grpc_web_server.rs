use vstd::prelude::*;

verus! {

/// The side that answers gRPC-Web clients with what the backend returned.
pub struct GrpcWebServer;

} // verus!
