use vstd::prelude::*;
use vstd::string::*;

verus! {

/// The greeting method's request: the name to greet.
pub struct HelloRequest {
    pub name: String,
}

/// The greeting method's reply.
pub struct HelloReply {
    pub message: String,
}

/// The greeting the service sends back for `name`.
pub open spec fn greeting(name: Seq<char>) -> Seq<char> {
    "Hello "@ + name
}

/// The example RPC service: answers each greeting request.
#[derive(Debug, Default)]
pub struct MyGreeter {}

impl MyGreeter {
    /// Answers `request` with "Hello " followed by the requested name.
    pub fn say_hello(&self, request: HelloRequest) -> (r: HelloReply)
        ensures
            r.message@ == greeting(request.name@),
    {
        let prefix: String = "Hello ".to_owned();
        HelloReply { message: prefix.concat(request.name.as_str()) }
    }
}

} // verus!
