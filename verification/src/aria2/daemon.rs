//! aria2c process settings: which binary runs, on which port, with which
//! arguments.

use vstd::prelude::*;
use crate::config::Config;
use crate::numeric::{decimal_repr, parse_u16, spec_parse_u16, u64_to_decimal};
use crate::text::{chars_of, clone_strings, str_concat, occurs_at, owned, string_from_chars, views};

verus! {

/// What follows the last `:` of `s` (all of `s` where it has none): the last
/// piece of `s.split(':')`.
pub open spec fn after_last_colon(s: Seq<char>) -> Seq<char>
    decreases s.len(),
{
    if s.len() == 0 {
        s
    } else if s.last() == ':' {
        Seq::empty()
    } else {
        after_last_colon(s.drop_last()).push(s.last())
    }
}

/// `s.trim_end_matches("/jsonrpc")`: every trailing `/jsonrpc` removed.
pub open spec fn trim_jsonrpc(s: Seq<char>) -> Seq<char>
    decreases s.len(),
{
    if s.len() >= 8 && s.subrange(s.len() - 8, s.len() as int) == "/jsonrpc"@ {
        trim_jsonrpc(s.subrange(0, s.len() - 8))
    } else {
        s
    }
}

/// The port that the RPC URL names: the number after its last `:`, once
/// trailing `/jsonrpc` are removed; 6800 where that is not a port number.
pub open spec fn spec_rpc_port(url: Seq<char>) -> u16 {
    match spec_parse_u16(trim_jsonrpc(after_last_colon(url))) {
        Some(p) => p,
        None => 6800,
    }
}

/// Where the piece after the last `:` of `v` starts.
fn colon_piece_start(v: &Vec<char>) -> (st: usize)
    ensures
        st <= v@.len(),
        after_last_colon(v@) == v@.subrange(st as int, v@.len() as int),
{
    let n = v.len();
    let mut start = n;
    assert(v@.take(n as int) =~= v@);
    assert(v@.subrange(n as int, n as int) =~= Seq::<char>::empty());
    while start > 0 && v[start - 1] != ':'
        invariant
            start <= n,
            n == v@.len(),
            after_last_colon(v@) == after_last_colon(v@.take(start as int)) + v@.subrange(
                start as int,
                n as int,
            ),
        decreases start,
    {
        let ghost t = v@.take(start as int);
        assert(t.drop_last() =~= v@.take(start - 1));
        assert(t.last() == v@[start - 1]);
        assert(v@.subrange(start - 1, n as int) =~= seq![v@[start - 1]] + v@.subrange(
            start as int,
            n as int,
        ));
        assert(after_last_colon(t.drop_last()).push(t.last()) + v@.subrange(start as int, n as int)
            =~= after_last_colon(t.drop_last()) + v@.subrange(start - 1, n as int));
        start = start - 1;
    }
    proof {
        let t = v@.take(start as int);
        if start > 0 {
            assert(after_last_colon(t) =~= Seq::<char>::empty());
        } else {
            assert(t =~= Seq::<char>::empty());
        }
        assert(after_last_colon(t) + v@.subrange(start as int, n as int) =~= v@.subrange(
            start as int,
            n as int,
        ));
    }
    start
}

/// Where the piece `v[start..]` ends once every trailing `/jsonrpc` is removed.
fn trimmed_end(v: &Vec<char>, start: usize) -> (end: usize)
    requires
        start <= v@.len(),
    ensures
        start <= end <= v@.len(),
        trim_jsonrpc(v@.subrange(start as int, v@.len() as int)) == v@.subrange(
            start as int,
            end as int,
        ),
{
    let suffix = chars_of("/jsonrpc");
    let n = v.len();
    let mut end = n;
    loop
        invariant
            start <= end <= n,
            n == v@.len(),
            suffix@ == "/jsonrpc"@,
            trim_jsonrpc(v@.subrange(start as int, n as int)) == trim_jsonrpc(
                v@.subrange(start as int, end as int),
            ),
        decreases end,
    {
        let cur = Ghost(v@.subrange(start as int, end as int));
        proof {
            reveal_strlit("/jsonrpc");
        }
        if end - start >= 8 && occurs_at(v, &suffix, end - 8) {
            assert(cur@.subrange(cur@.len() - 8, cur@.len() as int) =~= v@.subrange(
                end - 8,
                end as int,
            ));
            assert(cur@.subrange(0, cur@.len() - 8) =~= v@.subrange(start as int, end - 8));
            end = end - 8;
        } else {
            proof {
                if cur@.len() >= 8 {
                    assert(cur@.subrange(cur@.len() - 8, cur@.len() as int) =~= v@.subrange(
                        end - 8,
                        end as int,
                    ));
                }
            }
            return end;
        }
    }
}

/// The port that the RPC URL names, or 6800.
pub fn rpc_port(url: &str) -> (p: u16)
    ensures
        p == spec_rpc_port(url@),
{
    let v = chars_of(url);
    let start = colon_piece_start(&v);
    let end = trimmed_end(&v, start);
    let mut piece: Vec<char> = Vec::new();
    for i in start..end
        invariant
            end <= v@.len(),
            piece@ == v@.subrange(start as int, i as int),
    {
        piece.push(v[i]);
        assert(v@.subrange(start as int, i + 1) =~= v@.subrange(start as int, i as int).push(
            v@[i as int],
        ));
    }
    let s = string_from_chars(&piece);
    match parse_u16(s.as_str()) {
        Some(p) => p,
        None => 6800,
    }
}

/// The aria2c settings, taken from the configuration.
#[derive(Debug)]
pub struct Daemon {
    binary_path: String,
    extra_args: Vec<String>,
    rpc_port: u16,
    rpc_secret: String,
}

/// What the daemon settings hold.
pub struct DaemonView {
    pub binary_path: Seq<char>,
    pub extra_args: Seq<Seq<char>>,
    pub rpc_port: u16,
    pub rpc_secret: Seq<char>,
}

/// The daemon settings that the configuration gives.
pub open spec fn settings_of(config: &Config) -> DaemonView {
    DaemonView {
        binary_path: if config.aria2.binary_path@.len() == 0 {
            "aria2c"@
        } else {
            config.aria2.binary_path@
        },
        extra_args: views(config.aria2.extra_args@),
        rpc_port: spec_rpc_port(config.aria2.rpc_url@),
        rpc_secret: config.aria2.rpc_secret@,
    }
}

/// The arguments that aria2c is started with.
pub open spec fn spec_command_args(d: DaemonView) -> Seq<Seq<char>> {
    seq!["--enable-rpc"@, "--rpc-listen-port="@ + decimal_repr(d.rpc_port as nat), "--rpc-listen-all=false"@]
        + (if d.rpc_secret.len() > 0 {
        seq!["--rpc-secret="@ + d.rpc_secret]
    } else {
        Seq::empty()
    }) + d.extra_args
}

/// The daemon settings could not be made.
#[derive(Debug)]
pub enum DaemonError {
    /// The configuration does not describe a daemon.
    Invalid,
}

impl View for Daemon {
    type V = DaemonView;

    closed spec fn view(&self) -> DaemonView {
        DaemonView {
            binary_path: self.binary_path@,
            extra_args: views(self.extra_args@),
            rpc_port: self.rpc_port,
            rpc_secret: self.rpc_secret@,
        }
    }
}

impl Daemon {
    /// Create the daemon settings from configuration: the configured binary
    /// (`aria2c` where none is set), the port of the RPC URL (6800 where it
    /// names none), the secret and the extra arguments.
    pub fn new(config: &Config) -> (r: Result<Daemon, DaemonError>)
        ensures
            r matches Ok(d) && d@ == settings_of(config),
    {
        let binary_path = if config.aria2.binary_path.as_str().is_empty() {
            owned("aria2c")
        } else {
            owned(config.aria2.binary_path.as_str())
        };
        let rpc_port = rpc_port(config.aria2.rpc_url.as_str());
        Ok(
            Daemon {
                binary_path,
                extra_args: clone_strings(&config.aria2.extra_args),
                rpc_port,
                rpc_secret: owned(config.aria2.rpc_secret.as_str()),
            },
        )
    }

    /// The binary that is run.
    pub fn binary_path(&self) -> (r: &str)
        ensures
            r@ == self@.binary_path,
    {
        self.binary_path.as_str()
    }

    /// The arguments aria2c is started with: RPC enabled on the port,
    /// listening locally, the secret where one is set, then the extra
    /// arguments.
    pub fn command_args(&self) -> (r: Vec<String>)
        ensures
            views(r@) == spec_command_args(self@),
            r@.len() == 3 + (if self@.rpc_secret.len() > 0 { 1int } else { 0int })
                + self@.extra_args.len(),
            views(r@).subrange(r@.len() - self@.extra_args.len(), r@.len() as int)
                == self@.extra_args,
    {
        let mut r: Vec<String> = Vec::new();
        r.push(owned("--enable-rpc"));
        let port = u64_to_decimal(self.rpc_port as u64);
        r.push(str_concat("--rpc-listen-port=", port.as_str()));
        r.push(owned("--rpc-listen-all=false"));
        if !self.rpc_secret.as_str().is_empty() {
            r.push(str_concat("--rpc-secret=", self.rpc_secret.as_str()));
        }
        let ghost head = views(r@);
        let n = self.extra_args.len();
        for i in 0..n
            invariant
                n == self.extra_args@.len(),
                views(r@) == head + views(self.extra_args@.take(i as int)),
        {
            let ghost before = r@;
            r.push(owned(self.extra_args[i].as_str()));
            assert(views(r@) =~= views(before).push(self.extra_args@[i as int]@));
            assert(views(self.extra_args@.take(i + 1)) =~= views(self.extra_args@.take(i as int)).push(
                self.extra_args@[i as int]@,
            ));
            assert(views(r@) =~= head + views(self.extra_args@.take(i + 1)));
        }
        assert(self.extra_args@.take(n as int) =~= self.extra_args@);
        assert(views(r@) =~= spec_command_args(self@));
        proof {
            lemma_command_args_shape(self@);
        }
        r
    }
}

/// The shape of aria2c's arguments: RPC enabled first, then the port, then
/// local listening, then `--rpc-secret=<secret>` exactly when a secret is set,
/// and the configured extra arguments always last, in their order.
pub proof fn lemma_command_args_shape(d: DaemonView)
    ensures
        ({
            let a = spec_command_args(d);
            let k = d.extra_args.len();
            let has_secret = d.rpc_secret.len() > 0;
            &&& a.len() == 3 + (if has_secret { 1int } else { 0int }) + k
            &&& a.subrange(a.len() - k, a.len() as int) == d.extra_args
            &&& a[0] == "--enable-rpc"@
            &&& a[1] == "--rpc-listen-port="@ + decimal_repr(d.rpc_port as nat)
            &&& a[2] == "--rpc-listen-all=false"@
            &&& has_secret ==> a[3] == "--rpc-secret="@ + d.rpc_secret
        }),
{
    let a = spec_command_args(d);
    let k = d.extra_args.len();
    assert(a.subrange(a.len() - k, a.len() as int) =~= d.extra_args);
}

} // verus!
