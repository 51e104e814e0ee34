//! The shared pull-only deployable of edge and fair-compare benches.
use vstd::prelude::*;

use crate::text::{decimal_seq, push_decimal, push_str, trim_seq, trim_to_string};

verus! {

/// Default public nginx image (no build in the measured path).
pub const DEFAULT_BENCH_IMAGE: &'static str = "public.ecr.aws/nginx/nginx:alpine";

/// Environment variable that overrides the bench image.
pub const BENCH_IMAGE_ENV: &'static str = "PION_BENCH_IMAGE";

/// Host port published by single-container warm and cold deploy rows.
pub const BENCH_HOST_PORT: u16 = 18765;

/// The image of a run: the trimmed override when it is non-blank, else the default.
pub open spec fn bench_image_text(override_value: Option<Seq<char>>) -> Seq<char> {
    match override_value {
        Some(v) => if trim_seq(v).len() > 0 {
            trim_seq(v)
        } else {
            DEFAULT_BENCH_IMAGE@
        },
        None => DEFAULT_BENCH_IMAGE@,
    }
}

/// The bench image for the value of [`BENCH_IMAGE_ENV`] (`None` when it is unset).
pub fn bench_image_ref(override_value: Option<&str>) -> (r: String)
    ensures
        r@ == bench_image_text(
            match override_value {
                Some(v) => Some(v@),
                None => None,
            },
        ),
{
    match override_value {
        Some(v) => {
            let t = trim_to_string(v);
            if !t.as_str().is_empty() {
                t
            } else {
                DEFAULT_BENCH_IMAGE.to_owned()
            }
        },
        None => DEFAULT_BENCH_IMAGE.to_owned(),
    }
}

/// `host:container` mapping of a host port onto nginx's port 80.
pub open spec fn port_mapping_text(host_port: u16) -> Seq<char> {
    decimal_seq(host_port as nat) + ":80"@
}

/// The `host:80` port mapping of `host_port`.
pub fn bench_port_mapping(host_port: u16) -> (r: String)
    ensures
        r@ == port_mapping_text(host_port),
{
    let mut s = String::new();
    push_decimal(&mut s, host_port as u64);
    push_str(&mut s, ":80");
    assert(s@ =~= port_mapping_text(host_port));
    s
}

/// The registry digest that `docker image inspect` printed: its trimmed output, if any.
pub fn digest_from_inspect_output(stdout: &str) -> (r: Option<String>)
    ensures
        match r {
            Some(d) => trim_seq(stdout@).len() > 0 && d@ == trim_seq(stdout@),
            None => trim_seq(stdout@).len() == 0,
        },
{
    let t = trim_to_string(stdout);
    if t.as_str().is_empty() {
        None
    } else {
        Some(t)
    }
}

} // verus!
