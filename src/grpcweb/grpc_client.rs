use vstd::prelude::*;
use vstd::string::*;
use vstd::utf8::encode_utf8;
use crate::forward::{content_length_name, content_type_name, grpc_content_type, host_name};
use crate::headers::{with_value, without, HeaderList, HeaderSeq};

verus! {

pub open spec fn transfer_encoding_name() -> Seq<u8> {
    "transfer-encoding".spec_bytes()
}

/// The headers the client sends the backend: the inbound ones with `host`
/// set to the backend authority, `content-type` set to `application/grpc`, and
/// no `transfer-encoding` or `content-length`.
pub open spec fn client_headers(inbound: HeaderSeq, authority: Seq<char>) -> HeaderSeq {
    let h = with_value(inbound, host_name(), encode_utf8(authority));
    let h = with_value(h, content_type_name(), grpc_content_type());
    without(without(h, transfer_encoding_name()), content_length_name())
}

/// Makes requests from the proxy to the gRPC backend.
pub struct GrpcClient;

impl GrpcClient {
    /// The backend address followed by the path of the inbound request.
    pub fn get_full_forward_address(&self, inbound_path: &str, forward_address: &str) -> (r: String)
        ensures
            r@ == forward_address@ + inbound_path@,
    {
        let mut s = forward_address.to_owned();
        s.append(inbound_path);
        s
    }

    /// Rewrites the inbound request headers for the backend at `authority`.
    pub fn forward_headers(&self, headers: &mut HeaderList, authority: &str)
        ensures
            final(headers)@ == client_headers(old(headers)@, authority@),
    {
        headers.insert("host".as_bytes(), authority.as_bytes());
        headers.insert("content-type".as_bytes(), "application/grpc".as_bytes());
        headers.remove("transfer-encoding".as_bytes());
        headers.remove("content-length".as_bytes());
    }
}

} // verus!
