use vstd::prelude::*;
use crate::container::{named_config, texts, ConfigView, ContainerConfig};

verus! {

/// The message that a malformed environment entry is refused with, before the entry.
pub open spec fn env_format_error(s: Seq<char>) -> Seq<char> {
    "Переменная окружения должна быть в формате KEY=VALUE: "@ + s
}

/// Splits an environment entry `KEY=VALUE` at its first `=`: the key is what comes
/// before it (and holds no `=`), the value everything after it. An entry with no `=`
/// is refused with a message that quotes it.
pub fn parse_env_var(s: &str) -> (parsed: Result<(String, String), String>)
    ensures
        match parsed {
            Ok((key, value)) => s@ == key@ + seq!['='] + value@ && !key@.contains('='),
            Err(message) => !s@.contains('=') && message@ == env_format_error(s@),
        },
{
    let n = s.unicode_len();
    let mut i: usize = 0;
    while i < n
        invariant
            n == s@.len(),
            i <= n,
            forall|j: int| 0 <= j < i ==> s@[j] != '=',
        decreases n - i,
    {
        if s.get_char(i) == '=' {
            let key = String::from_str(s.substring_char(0, i));
            let value = String::from_str(s.substring_char(i + 1, n));
            assert(s@ =~= key@ + seq!['='] + value@);
            assert(!key@.contains('=')) by {
                if key@.contains('=') {
                    let j = choose|j: int| 0 <= j < key@.len() && key@[j] == '=';
                    assert(s@[j] == '=');
                }
            }
            return Ok((key, value));
        }
        i = i + 1;
    }
    assert(!s@.contains('=')) by {
        if s@.contains('=') {
            let j = choose|j: int| 0 <= j < s@.len() && s@[j] == '=';
            assert(s@[j] != '=');
        }
    }
    Err(String::from_str("Переменная окружения должна быть в формате KEY=VALUE: ").concat(s))
}

/// What the command line asks of a container run: its image and name, environment
/// pairs, command, CPU share (billionths of a core), memory in MiB, restart policy and
/// the ports to expose.
#[derive(Debug)]
pub struct RunContainerParams {
    pub image: String,
    pub name: String,
    pub env: Vec<(String, String)>,
    pub command: Option<Vec<String>>,
    pub nano_cpus: i64,
    pub memory_mb: i64,
    pub restart_policy: String,
    pub ports: Vec<String>,
}

/// Bytes in a mebibyte.
pub const MEBIBYTE: i64 = 1_048_576;

/// The environment entry `KEY=VALUE` of a pair.
pub open spec fn env_entry(kv: (String, String)) -> Seq<char> {
    kv.0@ + "="@ + kv.1@
}

/// The environment entries of a list of pairs.
pub open spec fn env_entries(pairs: Seq<(String, String)>) -> Seq<Seq<char>> {
    pairs.map_values(|kv: (String, String)| env_entry(kv))
}

/// The exposed ports that adding `ports` one by one to no ports gives.
pub open spec fn ports_added(ports: Seq<String>) -> Option<Seq<Seq<char>>> {
    if ports.len() == 0 {
        None
    } else {
        Some(texts(ports))
    }
}

/// The configuration that a run request asks for: the default for its image and name,
/// with its CPU share, its memory converted to bytes and its restart policy; its
/// environment entries and its command where they are not empty; and its ports, in order.
pub open spec fn run_config(p: RunContainerParams) -> ConfigView {
    let base = named_config(Some(p.name@), p.image@);
    ConfigView {
        nano_cpus: p.nano_cpus,
        memory: (p.memory_mb * MEBIBYTE) as i64,
        restart_policy: p.restart_policy@,
        env: if p.env@.len() == 0 {
            base.env
        } else {
            env_entries(p.env@)
        },
        cmd: match p.command {
            Some(c) => if c@.len() == 0 {
                base.cmd
            } else {
                texts(c@)
            },
            None => base.cmd,
        },
        exposed_ports: ports_added(p.ports@),
        ..base
    }
}

impl RunContainerParams {
    /// Whether the memory, converted to bytes, fits in an `i64`.
    pub open spec fn memory_fits(&self) -> bool {
        i64::MIN <= self.memory_mb * MEBIBYTE <= i64::MAX
    }

    /// The environment entries `KEY=VALUE` of the pairs.
    fn env_strings(&self) -> (entries: Vec<String>)
        ensures
            texts(entries@) == env_entries(self.env@),
    {
        let mut out: Vec<String> = Vec::new();
        let mut i: usize = 0;
        while i < self.env.len()
            invariant
                i <= self.env@.len(),
                texts(out@) == env_entries(self.env@.take(i as int)),
            decreases self.env@.len() - i,
        {
            let (k, v) = &self.env[i];
            let entry = k.clone().concat("=").concat(v.as_str());
            let ghost before = out@;
            out.push(entry);
            assert(self.env@.take(i as int + 1) =~= self.env@.take(i as int).push(self.env@[i as int]));
            assert(texts(out@) =~= texts(before).push(entry@));
            assert(env_entries(self.env@.take(i as int + 1)) =~= env_entries(self.env@.take(i as int)).push(
                env_entry(self.env@[i as int]),
            ));
            i = i + 1;
        }
        assert(self.env@.take(self.env@.len() as int) =~= self.env@);
        out
    }

    /// The container configuration that the request asks for (see `run_config`).
    pub fn into_config(self) -> (config: ContainerConfig)
        requires
            self.memory_fits(),
        ensures
            config@ == run_config(self),
    {
        let ghost p = self;
        let env = self.env_strings();
        let mut config = ContainerConfig::new(self.image, self.name).with_resources(
            self.nano_cpus,
            self.memory_mb * MEBIBYTE,
        ).with_restart_policy(self.restart_policy);
        if self.env.len() > 0 {
            config = config.with_env(env);
        }
        match self.command {
            Some(cmd) => {
                if cmd.len() > 0 {
                    config = config.with_cmd(cmd);
                }
            },
            None => {},
        }
        let ports = self.ports;
        let mut i: usize = 0;
        assert(texts(ports@.take(0)) =~= Seq::<Seq<char>>::empty());
        while i < ports.len()
            invariant
                ports@ == p.ports@,
                i <= ports@.len(),
                config@ == (ConfigView { exposed_ports: ports_added(ports@.take(i as int)), ..run_config(p) }),
            decreases ports@.len() - i,
        {
            config = config.with_exposed_port(ports[i].as_str());
            assert(ports@.take(i as int + 1) =~= ports@.take(i as int).push(ports@[i as int]));
            assert(texts(ports@.take(i as int + 1)) =~= texts(ports@.take(i as int)).push(ports@[i as int]@));
            if i == 0 {
                assert(texts(ports@.take(1)) =~= seq![ports@[0]@]);
            }
            assert(crate::container::ports_with(ports_added(ports@.take(i as int)), ports@[i as int]@)
                == ports_added(ports@.take(i as int + 1)));
            i = i + 1;
        }
        assert(ports@.take(ports@.len() as int) =~= ports@);
        config
    }
}

/// An entry splits at its first `=` in one way only: two keys without `=` that, each
/// with its value, make the same entry are the same key with the same value.
pub proof fn lemma_entry_split_is_unique(k1: Seq<char>, v1: Seq<char>, k2: Seq<char>, v2: Seq<char>)
    requires
        k1 + seq!['='] + v1 == k2 + seq!['='] + v2,
        !k1.contains('='),
        !k2.contains('='),
    ensures
        k1 == k2,
        v1 == v2,
{
    let e = k1 + seq!['='] + v1;
    assert(e[k1.len() as int] == '=');
    assert(e[k2.len() as int] == '=');
    if k1.len() < k2.len() {
        assert(k2[k1.len() as int] == '=');
    }
    if k2.len() < k1.len() {
        assert(k1[k2.len() as int] == '=');
    }
    assert(k1.len() == k2.len());
    assert(k1 =~= e.take(k1.len() as int));
    assert(k2 =~= e.take(k2.len() as int));
    assert(v1 =~= e.skip(k1.len() as int + 1));
    assert(v2 =~= e.skip(k2.len() as int + 1));
}

/// Splitting an entry undoes writing it: for a key without `=`, the entry `KEY=VALUE`
/// that a run request writes for a pair parses back to that key and value.
pub proof fn lemma_parse_inverts_entry(kv: (String, String), key: Seq<char>, value: Seq<char>)
    requires
        !kv.0@.contains('='),
        env_entry(kv) == key + seq!['='] + value,
        !key.contains('='),
    ensures
        key == kv.0@,
        value == kv.1@,
{
    reveal_strlit("=");
    assert("="@ =~= seq!['=']);
    assert(env_entry(kv) == kv.0@ + seq!['='] + kv.1@);
    lemma_entry_split_is_unique(kv.0@, kv.1@, key, value);
}

} // verus!
