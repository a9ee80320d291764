//! The vendored source tree's translation units, grouped by language.

use vstd::prelude::*;

verus! {

/// One run of the C++ translation unit names, in compilation order.
pub open spec fn cpp_names_a() -> Seq<&'static str> {
    seq![
        "address",
        "channel",
        "client",
        "clock",
        "ctx",
        "curve_client",
        "curve_mechanism_base",
        "curve_server",
        "dealer",
        "decoder_allocators",
        "devpoll",
        "dgram",
        "dish",
        "dist",
        "endpoint",
        "epoll",
        "err",
        "fq",
        "gather",
        "gssapi_client",
    ]
}

fn push_cpp_names_a(v: &mut Vec<&'static str>)
    ensures
        final(v)@ == old(v)@ + cpp_names_a(),
{
    v.push("address");
    v.push("channel");
    v.push("client");
    v.push("clock");
    v.push("ctx");
    v.push("curve_client");
    v.push("curve_mechanism_base");
    v.push("curve_server");
    v.push("dealer");
    v.push("decoder_allocators");
    v.push("devpoll");
    v.push("dgram");
    v.push("dish");
    v.push("dist");
    v.push("endpoint");
    v.push("epoll");
    v.push("err");
    v.push("fq");
    v.push("gather");
    v.push("gssapi_client");
    proof {
        assert(v@ =~= old(v)@ + cpp_names_a());
    }
}

/// One run of the C++ translation unit names, in compilation order.
pub open spec fn cpp_names_b() -> Seq<&'static str> {
    seq![
        "gssapi_mechanism_base",
        "gssapi_server",
        "io_object",
        "io_thread",
        "ip_resolver",
        "ip",
        "ipc_address",
        "ipc_connecter",
        "ipc_listener",
        "kqueue",
        "lb",
        "mailbox_safe",
        "mailbox",
        "mechanism_base",
        "mechanism",
        "metadata",
        "msg",
        "mtrie",
        "norm_engine",
        "null_mechanism",
    ]
}

fn push_cpp_names_b(v: &mut Vec<&'static str>)
    ensures
        final(v)@ == old(v)@ + cpp_names_b(),
{
    v.push("gssapi_mechanism_base");
    v.push("gssapi_server");
    v.push("io_object");
    v.push("io_thread");
    v.push("ip_resolver");
    v.push("ip");
    v.push("ipc_address");
    v.push("ipc_connecter");
    v.push("ipc_listener");
    v.push("kqueue");
    v.push("lb");
    v.push("mailbox_safe");
    v.push("mailbox");
    v.push("mechanism_base");
    v.push("mechanism");
    v.push("metadata");
    v.push("msg");
    v.push("mtrie");
    v.push("norm_engine");
    v.push("null_mechanism");
    proof {
        assert(v@ =~= old(v)@ + cpp_names_b());
    }
}

/// One run of the C++ translation unit names, in compilation order.
pub open spec fn cpp_names_c() -> Seq<&'static str> {
    seq![
        "object",
        "options",
        "own",
        "pair",
        "peer",
        "pgm_receiver",
        "pgm_sender",
        "pgm_socket",
        "pipe",
        "plain_client",
        "plain_server",
        "poll",
        "poller_base",
        "polling_util",
        "pollset",
        "precompiled",
        "proxy",
        "pub",
        "pull",
        "push",
    ]
}

fn push_cpp_names_c(v: &mut Vec<&'static str>)
    ensures
        final(v)@ == old(v)@ + cpp_names_c(),
{
    v.push("object");
    v.push("options");
    v.push("own");
    v.push("pair");
    v.push("peer");
    v.push("pgm_receiver");
    v.push("pgm_sender");
    v.push("pgm_socket");
    v.push("pipe");
    v.push("plain_client");
    v.push("plain_server");
    v.push("poll");
    v.push("poller_base");
    v.push("polling_util");
    v.push("pollset");
    v.push("precompiled");
    v.push("proxy");
    v.push("pub");
    v.push("pull");
    v.push("push");
    proof {
        assert(v@ =~= old(v)@ + cpp_names_c());
    }
}

/// One run of the C++ translation unit names, in compilation order.
pub open spec fn cpp_names_d() -> Seq<&'static str> {
    seq![
        "radio",
        "radix_tree",
        "random",
        "raw_decoder",
        "raw_encoder",
        "raw_engine",
        "reaper",
        "rep",
        "req",
        "router",
        "scatter",
        "select",
        "server",
        "session_base",
        "signaler",
        "socket_base",
        "socket_poller",
        "socks_connecter",
        "socks",
        "stream_connecter_base",
    ]
}

fn push_cpp_names_d(v: &mut Vec<&'static str>)
    ensures
        final(v)@ == old(v)@ + cpp_names_d(),
{
    v.push("radio");
    v.push("radix_tree");
    v.push("random");
    v.push("raw_decoder");
    v.push("raw_encoder");
    v.push("raw_engine");
    v.push("reaper");
    v.push("rep");
    v.push("req");
    v.push("router");
    v.push("scatter");
    v.push("select");
    v.push("server");
    v.push("session_base");
    v.push("signaler");
    v.push("socket_base");
    v.push("socket_poller");
    v.push("socks_connecter");
    v.push("socks");
    v.push("stream_connecter_base");
    proof {
        assert(v@ =~= old(v)@ + cpp_names_d());
    }
}

/// One run of the C++ translation unit names, in compilation order.
pub open spec fn cpp_names_e() -> Seq<&'static str> {
    seq![
        "stream_engine_base",
        "stream_listener_base",
        "stream",
        "sub",
        "tcp_address",
        "tcp_connecter",
        "tcp_listener",
        "tcp",
        "thread",
        "timers",
        "tipc_address",
        "tipc_connecter",
        "tipc_listener",
        "trie",
        "udp_address",
        "udp_engine",
        "v1_decoder",
        "v1_encoder",
        "v2_decoder",
        "v2_encoder",
    ]
}

fn push_cpp_names_e(v: &mut Vec<&'static str>)
    ensures
        final(v)@ == old(v)@ + cpp_names_e(),
{
    v.push("stream_engine_base");
    v.push("stream_listener_base");
    v.push("stream");
    v.push("sub");
    v.push("tcp_address");
    v.push("tcp_connecter");
    v.push("tcp_listener");
    v.push("tcp");
    v.push("thread");
    v.push("timers");
    v.push("tipc_address");
    v.push("tipc_connecter");
    v.push("tipc_listener");
    v.push("trie");
    v.push("udp_address");
    v.push("udp_engine");
    v.push("v1_decoder");
    v.push("v1_encoder");
    v.push("v2_decoder");
    v.push("v2_encoder");
    proof {
        assert(v@ =~= old(v)@ + cpp_names_e());
    }
}

/// One run of the C++ translation unit names, in compilation order.
pub open spec fn cpp_names_f() -> Seq<&'static str> {
    seq![
        "v3_1_encoder",
        "vmci_address",
        "vmci_connecter",
        "vmci_listener",
        "vmci",
        "ws_address",
        "ws_connecter",
        "ws_decoder",
        "ws_encoder",
        "ws_engine",
        "ws_listener",
        "xpub",
        "xsub",
        "zap_client",
        "zmq_utils",
        "zmq",
        "zmtp_engine",
    ]
}

fn push_cpp_names_f(v: &mut Vec<&'static str>)
    ensures
        final(v)@ == old(v)@ + cpp_names_f(),
{
    v.push("v3_1_encoder");
    v.push("vmci_address");
    v.push("vmci_connecter");
    v.push("vmci_listener");
    v.push("vmci");
    v.push("ws_address");
    v.push("ws_connecter");
    v.push("ws_decoder");
    v.push("ws_encoder");
    v.push("ws_engine");
    v.push("ws_listener");
    v.push("xpub");
    v.push("xsub");
    v.push("zap_client");
    v.push("zmq_utils");
    v.push("zmq");
    v.push("zmtp_engine");
    proof {
        assert(v@ =~= old(v)@ + cpp_names_f());
    }
}

/// The names of the C++ translation units under the vendored tree's
/// `src` directory, without their extension, in compilation order.
/// The TLS WebSocket units stay out: they need gnutls, which the
/// build does not provide.
pub open spec fn cpp_source_names() -> Seq<&'static str> {
    cpp_names_a() + cpp_names_b() + cpp_names_c() + cpp_names_d() + cpp_names_e() + cpp_names_f()
}

/// The C++ translation units of the vendored tree, as values.
pub fn vendored_cpp_names() -> (v: Vec<&'static str>)
    ensures
        v@ == cpp_source_names(),
{
    let mut v: Vec<&'static str> = Vec::new();
    push_cpp_names_a(&mut v);
    push_cpp_names_b(&mut v);
    push_cpp_names_c(&mut v);
    push_cpp_names_d(&mut v);
    push_cpp_names_e(&mut v);
    push_cpp_names_f(&mut v);
    proof {
        assert(v@ =~= cpp_source_names());
    }
    v
}

} // verus!
