//! Server configuration: host, port and buffer size, frozen once the accept
//! loop starts, and the construction of the `host:port` bind address.

use crate::util::append_slice;
use vstd::prelude::*;
use vstd::utf8::encode_utf8;

verus! {

/// Default host address.
pub const DEFAULT_HOST: &'static str = "0.0.0.0";

/// Default listen port number.
pub const DEFAULT_LISTEN_PORT: usize = 60000;

/// Default buffer size for requests, in bytes.
pub const DEFAULT_BUFFER_SIZE: usize = 512000;

/// The decimal digit character (as a byte) for `n % 10`.
pub open spec fn decimal_digit(n: nat) -> u8 {
    (48 + (n % 10)) as u8
}

/// The decimal representation of `n`, most significant digit first.
pub open spec fn decimal_digits(n: nat) -> Seq<u8>
    decreases n,
{
    if n < 10 {
        seq![decimal_digit(n)]
    } else {
        decimal_digits(n / 10).push(decimal_digit(n))
    }
}

/// Appends the decimal representation of `n` to `out`.
fn append_decimal(out: &mut Vec<u8>, n: usize)
    ensures
        final(out)@ == old(out)@ + decimal_digits(n as nat),
{
    let mut rev: Vec<u8> = Vec::new();
    let mut rest: usize = n;
    proof {
        assert(decimal_digits(n as nat) =~= decimal_digits(rest as nat) + rev@.reverse());
    }
    loop
        invariant_except_break
            decimal_digits(n as nat) == decimal_digits(rest as nat) + rev@.reverse(),
        ensures
            decimal_digits(n as nat) == rev@.reverse(),
        decreases rest,
    {
        let d: u8 = 48 + (rest % 10) as u8;
        let ghost rev_before = rev@;
        rev.push(d);
        proof {
            assert(rev@.reverse() =~= seq![d] + rev_before.reverse());
        }
        if rest < 10 {
            proof {
                assert(decimal_digits(rest as nat) =~= seq![d]);
                assert(seq![d] + rev_before.reverse() =~= rev@.reverse());
                assert(decimal_digits(n as nat) =~= rev@.reverse());
            }
            break;
        }
        proof {
            assert(decimal_digits(rest as nat) == decimal_digits((rest / 10) as nat).push(
                decimal_digit(rest as nat),
            ));
            assert(decimal_digits((rest / 10) as nat).push(d) + rev_before.reverse()
                =~= decimal_digits((rest / 10) as nat) + rev@.reverse());
        }
        rest = rest / 10;
    }
    let mut i: usize = rev.len();
    proof {
        assert(out@ =~= out@ + rev@.reverse().take(0));
    }
    while i > 0
        invariant
            i <= rev@.len(),
            out@ == old(out)@ + rev@.reverse().take(rev@.len() - i),
        decreases i,
    {
        let ghost k = rev@.len() - i;
        i = i - 1;
        out.push(rev[i]);
        proof {
            assert(rev@.reverse()[k] == rev@[i as int]);
            assert(old(out)@ + rev@.reverse().take(k) + seq![rev@[i as int]] =~= old(out)@
                + rev@.reverse().take(k + 1));
        }
    }
    proof {
        assert(rev@.reverse().take(rev@.len() as int) =~= rev@.reverse());
    }
}

/// Server configuration parameters, read by the accept loop and by request
/// framing.  Mutated only before the server starts; treated as frozen for a
/// run once the accept loop is started.
#[derive(Clone, Debug)]
pub struct ServerConfig {
    /// The server host address.
    host: String,
    /// The server listening port.
    port: usize,
    /// Network buffer size in bytes.
    buffer_size: usize,
}

impl Default for ServerConfig {
    /// The default configuration: any-interface host, the default port and
    /// the default buffer size.
    fn default() -> (r: Self)
        ensures
            r.spec_host() == DEFAULT_HOST@,
            r.spec_port() == DEFAULT_LISTEN_PORT,
            r.spec_buffer_size() == DEFAULT_BUFFER_SIZE,
    {
        ServerConfig {
            host: DEFAULT_HOST.to_owned(),
            port: DEFAULT_LISTEN_PORT,
            buffer_size: DEFAULT_BUFFER_SIZE,
        }
    }
}

impl ServerConfig {
    /// The configured host.
    pub closed spec fn spec_host(self) -> Seq<char> {
        self.host@
    }

    /// The configured port.
    pub closed spec fn spec_port(self) -> usize {
        self.port
    }

    /// The configured buffer size.
    pub closed spec fn spec_buffer_size(self) -> usize {
        self.buffer_size
    }

    /// A configuration with the default values.
    pub fn new() -> (r: Self)
        ensures
            r.spec_host() == DEFAULT_HOST@,
            r.spec_port() == DEFAULT_LISTEN_PORT,
            r.spec_buffer_size() == DEFAULT_BUFFER_SIZE,
    {
        Self::default()
    }

    /// Sets the host address.
    pub fn host(&mut self, host: String)
        ensures
            final(self).spec_host() == host@,
            final(self).spec_port() == old(self).spec_port(),
            final(self).spec_buffer_size() == old(self).spec_buffer_size(),
    {
        self.host = host;
    }

    /// Sets the listening port.
    pub fn port(&mut self, port: usize)
        ensures
            final(self).spec_port() == port,
            final(self).spec_host() == old(self).spec_host(),
            final(self).spec_buffer_size() == old(self).spec_buffer_size(),
    {
        self.port = port;
    }

    /// Sets the network buffer size.
    pub fn buffer(&mut self, buffer_size: usize)
        ensures
            final(self).spec_buffer_size() == buffer_size,
            final(self).spec_host() == old(self).spec_host(),
            final(self).spec_port() == old(self).spec_port(),
    {
        self.buffer_size = buffer_size;
    }

    /// The configured host.
    pub fn get_host(&self) -> (r: &String)
        ensures
            r@ == self.spec_host(),
    {
        &self.host
    }

    /// The configured port.
    pub fn get_port(&self) -> (r: usize)
        ensures
            r == self.spec_port(),
    {
        self.port
    }

    /// The configured buffer size.
    pub fn get_buffer_size(&self) -> (r: usize)
        ensures
            r == self.spec_buffer_size(),
    {
        self.buffer_size
    }

    /// The scratch-buffer size used for framing: the configured buffer size,
    /// raised to at least the length of the request delimiter.
    pub fn effective_buffer_size(&self) -> (r: usize)
        ensures
            r == (if self.spec_buffer_size() >= 4 {
                self.spec_buffer_size()
            } else {
                4
            }),
            r >= 4,
    {
        if self.buffer_size >= 4 {
            self.buffer_size
        } else {
            4
        }
    }

    /// The `host:port` bind address, as bytes: the host's UTF-8 encoding, a
    /// colon, and the port in decimal.
    pub fn bind_address_bytes(&self) -> (r: Vec<u8>)
        ensures
            r@ == encode_utf8(self.spec_host()) + seq![58u8] + decimal_digits(
                self.spec_port() as nat,
            ),
    {
        let mut out: Vec<u8> = Vec::new();
        append_slice(&mut out, self.host.as_str().as_bytes());
        out.push(58u8);
        append_decimal(&mut out, self.port);
        proof {
            assert(Seq::<u8>::empty() + encode_utf8(self.spec_host()) =~= encode_utf8(
                self.spec_host(),
            ));
            assert(encode_utf8(self.spec_host()).push(58u8) =~= encode_utf8(self.spec_host())
                + seq![58u8]);
        }
        out
    }
}

} // verus!
