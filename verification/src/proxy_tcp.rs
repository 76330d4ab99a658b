//! The TCP proxy's forwarding decisions: which rule serves a local port,
//! and which remote address the round-robin balancer picks next. The
//! listeners and the byte pumps stay with the surrounding process.

use vstd::prelude::*;

use crate::config::{TcpProxyConfig, TcpProxyRule};

verus! {

/// The TCP proxy: its configuration and one round-robin counter per rule.
#[derive(Debug)]
pub struct TcpProxyServer {
    config: TcpProxyConfig,
    counters: Vec<usize>,
}

/// The index of the first rule listening on `local_port`, searched from `i`.
pub open spec fn find_rule_from(rules: Seq<TcpProxyRule>, local_port: u16, i: int) -> Option<
    int,
>
    decreases rules.len() - i,
{
    if 0 <= i && i < rules.len() {
        if rules[i].local_port == local_port {
            Some(i)
        } else {
            find_rule_from(rules, local_port, i + 1)
        }
    } else {
        None
    }
}

impl TcpProxyServer {
    /// The configuration the proxy was built with.
    pub closed spec fn config(&self) -> TcpProxyConfig {
        self.config
    }

    /// The per-rule round-robin counters.
    pub closed spec fn counters(&self) -> Seq<usize> {
        self.counters@
    }

    /// A proxy over the given configuration, with one counter per rule,
    /// all starting at zero.
    pub fn new(config: TcpProxyConfig) -> (r: TcpProxyServer)
        ensures
            r.config() == config,
            r.counters().len() == config.rules@.len(),
            forall|i: int| 0 <= i < r.counters().len() ==> r.counters()[i] == 0,
    {
        let n = config.rules.len();
        let mut counters: Vec<usize> = Vec::new();
        let mut i: usize = 0;
        while i < n
            invariant
                i <= n,
                counters@.len() == i,
                forall|k: int| 0 <= k < i ==> counters@[k] == 0,
            decreases n - i,
        {
            counters.push(0);
            i = i + 1;
        }
        TcpProxyServer { config, counters }
    }

    /// The first rule listening on `local_port`, if any; the connection is
    /// forwarded exactly when one exists.
    pub fn should_forward(&self, local_port: u16) -> (r: Option<TcpProxyRule>)
        ensures
            match find_rule_from(self.config().rules@, local_port, 0) {
                Some(i) => {
                    &&& r is Some
                    &&& r->Some_0.local_port == self.config().rules@[i].local_port
                    &&& r->Some_0.remote_addresses@.len()
                        == self.config().rules@[i].remote_addresses@.len()
                    &&& forall|k: int|
                        0 <= k < r->Some_0.remote_addresses@.len()
                            ==> r->Some_0.remote_addresses@[k]@
                            == self.config().rules@[i].remote_addresses@[k]@
                    &&& match (r->Some_0.pattern, self.config().rules@[i].pattern) {
                        (Some(p), Some(q)) => p@ == q@,
                        (None, None) => true,
                        _ => false,
                    }
                },
                None => r is None,
            },
    {
        let mut i: usize = 0;
        while i < self.config.rules.len()
            invariant
                i <= self.config.rules@.len(),
                find_rule_from(self.config.rules@, local_port, 0) == find_rule_from(
                    self.config.rules@,
                    local_port,
                    i as int,
                ),
            decreases self.config.rules@.len() - i,
        {
            if self.config.rules[i].local_port == local_port {
                return Some(copy_rule(&self.config.rules[i]));
            }
            i = i + 1;
        }
        None
    }

    /// Picks the next remote address for the rule, advancing its
    /// round-robin counter.
    pub fn pick_target(&mut self, rule_index: usize) -> (r: String)
        requires
            rule_index < old(self).config().rules@.len(),
            old(self).counters().len() == old(self).config().rules@.len(),
            old(self).config().rules@[rule_index as int].remote_addresses@.len() > 0,
        ensures
            final(self).config() == old(self).config(),
            final(self).counters() == old(self).counters().update(
                rule_index as int,
                if old(self).counters()[rule_index as int] == usize::MAX {
                    0usize
                } else {
                    (old(self).counters()[rule_index as int] + 1) as usize
                },
            ),
            r@ == old(self).config().rules@[rule_index as int].remote_addresses@[(old(
                self,
            ).counters()[rule_index as int] as int) % old(self).config().rules@[
                rule_index as int
            ].remote_addresses@.len() as int]@,
    {
        let rule = &self.config.rules[rule_index];
        let counter = self.counters[rule_index];
        let index = counter % rule.remote_addresses.len();
        let target = rule.remote_addresses[index].clone();
        let next: usize = if counter == usize::MAX {
            0
        } else {
            counter + 1
        };
        self.counters.set(rule_index, next);
        target
    }
}

/// A field-for-field copy of a forwarding rule.
fn copy_rule(rule: &TcpProxyRule) -> (r: TcpProxyRule)
    ensures
        r.local_port == rule.local_port,
        r.remote_addresses@.len() == rule.remote_addresses@.len(),
        forall|k: int|
            0 <= k < r.remote_addresses@.len() ==> r.remote_addresses@[k]@
                == rule.remote_addresses@[k]@,
        match (r.pattern, rule.pattern) {
            (Some(p), Some(q)) => p@ == q@,
            (None, None) => true,
            _ => false,
        },
{
    let mut remote_addresses: Vec<String> = Vec::new();
    let mut i: usize = 0;
    while i < rule.remote_addresses.len()
        invariant
            i <= rule.remote_addresses@.len(),
            remote_addresses@.len() == i,
            forall|k: int|
                0 <= k < i ==> remote_addresses@[k]@ == rule.remote_addresses@[k]@,
        decreases rule.remote_addresses@.len() - i,
    {
        remote_addresses.push(rule.remote_addresses[i].clone());
        i = i + 1;
    }
    let pattern = match &rule.pattern {
        Some(p) => Some(p.clone()),
        None => None,
    };
    TcpProxyRule { local_port: rule.local_port, remote_addresses, pattern }
}

} // verus!
