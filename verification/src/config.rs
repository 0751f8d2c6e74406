//! The configuration the dashboard works on: a flake path, global extra
//! arguments, and a per-host table. The table is held strictly sorted by host
//! name, so names are unique and listings need no further ordering.

use vstd::prelude::*;

verus! {

use crate::hosts::HostConfig;
use crate::text::{lex_lt, lemma_lex_irrefl, lemma_lex_total, lemma_lex_trans, str_eq, str_lt};

pub struct Config {
    pub flake_path: Option<String>,
    pub extra_args: Vec<String>,
    pub hosts: Vec<(String, HostConfig)>,
}

impl Config {
    /// The host table is strictly sorted by name: names are unique and listed
    /// in lexicographic order.
    pub open spec fn wf(self) -> bool {
        forall|i: int, j: int|
            0 <= i < j < self.hosts@.len() ==> lex_lt(
                (#[trigger] self.hosts@[i]).0@,
                (#[trigger] self.hosts@[j]).0@,
            )
    }

    /// True when a host of that name is present.
    pub open spec fn has_host(self, name: Seq<char>) -> bool {
        exists|i: int| 0 <= i < self.hosts@.len() && (#[trigger] self.hosts@[i]).0@ == name
    }

    /// The position of the host of that name.
    pub open spec fn host_idx(self, name: Seq<char>) -> int {
        choose|i: int| 0 <= i < self.hosts@.len() && (#[trigger] self.hosts@[i]).0@ == name
    }

    /// The configuration of the host of that name.
    pub open spec fn host_at(self, name: Seq<char>) -> HostConfig {
        self.hosts@[self.host_idx(name)].1
    }

    /// In a sorted table, no name occurs twice.
    pub proof fn lemma_names_unique(self)
        requires
            self.wf(),
        ensures
            forall|i: int, j: int|
                0 <= i < self.hosts@.len() && 0 <= j < self.hosts@.len() && i != j ==> (
                #[trigger] self.hosts@[i]).0@ != (#[trigger] self.hosts@[j]).0@,
    {
        assert forall|i: int, j: int|
            0 <= i < self.hosts@.len() && 0 <= j < self.hosts@.len() && i != j implies (
        #[trigger] self.hosts@[i]).0@ != (#[trigger] self.hosts@[j]).0@ by {
            if i < j {
                lemma_lex_irrefl(self.hosts@[i].0@);
            } else {
                lemma_lex_irrefl(self.hosts@[j].0@);
            }
        }
    }

    /// Finds the position of a host by name.
    pub fn find_host(&self, name: &str) -> (r: Option<usize>)
        ensures
            match r {
                Some(i) => i < self.hosts@.len() && self.hosts@[i as int].0@ == name@,
                None => !self.has_host(name@),
            },
    {
        let mut i: usize = 0;
        while i < self.hosts.len()
            invariant
                i <= self.hosts@.len(),
                forall|k: int| 0 <= k < i ==> (#[trigger] self.hosts@[k]).0@ != name@,
            decreases self.hosts@.len() - i,
        {
            if str_eq(self.hosts[i].0.as_str(), name) {
                return Some(i);
            }
            i += 1;
        }
        None
    }

    /// Inserts the entry for `name`, or replaces it when already present.
    /// Every other entry and the rest of the configuration are untouched.
    pub fn set_host(&mut self, name: String, hc: HostConfig)
        requires
            old(self).wf(),
        ensures
            final(self).wf(),
            final(self).flake_path == old(self).flake_path,
            final(self).extra_args == old(self).extra_args,
            final(self).has_host(name@),
            final(self).host_at(name@) == hc,
            forall|n2: Seq<char>|
                n2 != name@ ==> (#[trigger] final(self).has_host(n2) <==> old(self).has_host(n2)),
            forall|n2: Seq<char>|
                n2 != name@ && old(self).has_host(n2) ==> #[trigger] final(self).host_at(n2)
                    == old(self).host_at(n2),
            final(self).hosts@.len() == old(self).hosts@.len() + (
            if old(self).has_host(name@) {
                0int
            } else {
                1int
            }),
    {
        proof {
            old(self).lemma_names_unique();
        }
        let mut k: usize = 0;
        while k < self.hosts.len() && str_lt(self.hosts[k].0.as_str(), name.as_str())
            invariant
                *self == *old(self),
                k <= self.hosts@.len(),
                forall|i: int| 0 <= i < k ==> lex_lt((#[trigger] self.hosts@[i]).0@, name@),
            decreases self.hosts@.len() - k,
        {
            k += 1;
        }
        let replace = k < self.hosts.len() && str_eq(self.hosts[k].0.as_str(), name.as_str());
        let ghost pre = self.hosts@;
        if replace {
            self.hosts.set(k, (name, hc));
            proof {
                let ki = k as int;
                assert(self.hosts@[ki].0@ == pre[ki].0@);
                assert forall|i: int, j: int| 0 <= i < j < self.hosts@.len() implies lex_lt(
                    (#[trigger] self.hosts@[i]).0@,
                    (#[trigger] self.hosts@[j]).0@,
                ) by {
                    assert(pre[i].0@ == self.hosts@[i].0@);
                    assert(pre[j].0@ == self.hosts@[j].0@);
                }
                assert(final(self).has_host(name@)) by {
                    assert(self.hosts@[ki].0@ == name@);
                }
                assert(final(self).host_idx(name@) == ki) by {
                    let w = final(self).host_idx(name@);
                    if w != ki {
                        assert(pre[w] == self.hosts@[w]);
                        assert(old(self).hosts@[w].0@ != old(self).hosts@[ki].0@);
                    }
                }
                assert forall|n2: Seq<char>| n2 != name@ implies (#[trigger] final(self).has_host(
                    n2,
                ) <==> old(self).has_host(n2)) by {
                    if old(self).has_host(n2) {
                        let w = old(self).host_idx(n2);
                        assert(old(self).hosts@[w].0@ == n2);
                        assert(w != ki);
                        assert(self.hosts@[w].0@ == n2);
                    }
                    if final(self).has_host(n2) {
                        let w = choose|i: int|
                            0 <= i < self.hosts@.len() && (#[trigger] self.hosts@[i]).0@ == n2;
                        assert(w != ki);
                        assert(old(self).hosts@[w].0@ == n2);
                    }
                }
                assert forall|n2: Seq<char>| n2 != name@ && old(self).has_host(n2) implies (
                #[trigger] final(self).host_at(n2)) == old(self).host_at(n2) by {
                    self.lemma_names_unique();
                    let w0 = old(self).host_idx(n2);
                    let w1 = final(self).host_idx(n2);
                    assert(old(self).hosts@[w0].0@ == n2);
                    assert(w0 != ki);
                    assert(self.hosts@[w0].0@ == n2);
                    assert(self.hosts@[w1].0@ == n2);
                    assert(w1 == w0);
                }
            }
        } else {
            proof {
                if k < self.hosts@.len() {
                    lemma_lex_total(name@, self.hosts@[k as int].0@);
                }
            }
            self.hosts.insert(k, (name, hc));
            proof {
                let ki = k as int;
                assert forall|j: int| 0 <= j < self.hosts@.len() implies self.hosts@[j] == (
                if j < ki {
                    pre[j]
                } else if j == ki {
                    self.hosts@[ki]
                } else {
                    pre[j - 1]
                }) by {
                    assert(self.hosts@ == pre.insert(ki, self.hosts@[ki]));
                }
                assert forall|i: int, j: int| 0 <= i < j < self.hosts@.len() implies lex_lt(
                    (#[trigger] self.hosts@[i]).0@,
                    (#[trigger] self.hosts@[j]).0@,
                ) by {
                    if i < ki && j == ki {
                    } else if i == ki && j > ki {
                        if ki < pre.len() {
                            if j - 1 > ki {
                                lemma_lex_trans(name@, pre[ki].0@, pre[j - 1].0@);
                            }
                        }
                    } else if i < ki && j > ki {
                        if j - 1 == ki {
                        } else {
                        }
                    }
                }
                assert(!old(self).has_host(name@)) by {
                    if old(self).has_host(name@) {
                        let w = old(self).host_idx(name@);
                        if w < ki {
                            lemma_lex_irrefl(name@);
                        } else {
                            assert(!lex_lt(pre[ki].0@, name@));
                            assert(pre[ki].0@ != name@) by {
                                if w > ki {
                                    lemma_lex_trans(pre[ki].0@, pre[w].0@, pre[ki].0@);
                                    lemma_lex_irrefl(pre[ki].0@);
                                }
                            }
                        }
                    }
                }
                assert(final(self).has_host(name@)) by {
                    assert(self.hosts@[ki].0@ == name@);
                }
                assert(final(self).host_idx(name@) == ki) by {
                    self.lemma_names_unique();
                    let w = final(self).host_idx(name@);
                    assert(self.hosts@[w].0@ == name@);
                    assert(self.hosts@[ki].0@ == name@);
                }
                assert forall|n2: Seq<char>| n2 != name@ implies (#[trigger] final(self).has_host(
                    n2,
                ) <==> old(self).has_host(n2)) by {
                    if old(self).has_host(n2) {
                        let w = old(self).host_idx(n2);
                        assert(pre[w].0@ == n2);
                        if w < ki {
                            assert(self.hosts@[w].0@ == n2);
                        } else {
                            assert(self.hosts@[w + 1].0@ == n2);
                        }
                    }
                    if final(self).has_host(n2) {
                        let w = choose|i: int|
                            0 <= i < self.hosts@.len() && (#[trigger] self.hosts@[i]).0@ == n2;
                        assert(w != ki);
                        if w < ki {
                            assert(pre[w].0@ == n2);
                        } else {
                            assert(pre[w - 1].0@ == n2);
                        }
                    }
                }
                assert forall|n2: Seq<char>| n2 != name@ && old(self).has_host(n2) implies (
                #[trigger] final(self).host_at(n2)) == old(self).host_at(n2) by {
                    self.lemma_names_unique();
                    old(self).lemma_names_unique();
                    let w0 = old(self).host_idx(n2);
                    assert(pre[w0].0@ == n2);
                    let w1 = final(self).host_idx(n2);
                    if w0 < ki {
                        assert(self.hosts@[w0].0@ == n2);
                        assert(w1 == w0);
                    } else {
                        assert(self.hosts@[w0 + 1].0@ == n2);
                        assert(w1 == w0 + 1);
                    }
                }
            }
        }
    }

    /// Brings a set of discovered configuration names into the table: names
    /// already present keep their entry; a new name matching the current
    /// hostname is entered as local; any other new name is entered as
    /// unconfigured.
    pub fn merge_discovered_configs(&mut self, discovered: Vec<String>, current_hostname: &str)
        requires
            old(self).wf(),
        ensures
            final(self).wf(),
            final(self).flake_path == old(self).flake_path,
            final(self).extra_args == old(self).extra_args,
            forall|n: Seq<char>|
                #[trigger] final(self).has_host(n) <==> old(self).has_host(n) || (exists|i: int|
                    0 <= i < discovered@.len() && (#[trigger] discovered@[i])@ == n),
            forall|n: Seq<char>|
                old(self).has_host(n) ==> #[trigger] final(self).host_at(n) == old(self).host_at(
                    n,
                ),
            forall|n: Seq<char>|
                !old(self).has_host(n) && #[trigger] final(self).has_host(n) ==> ({
                    &&& (n == current_hostname@ ==> final(self).host_at(n).connection is Local)
                    &&& (n != current_hostname@ ==> final(self).host_at(
                        n,
                    ).connection is Unconfigured)
                    &&& final(self).host_at(n).extra_args@.len() == 0
                }),
    {
        let n = discovered.len();
        let mut d = discovered;
        let mut i: usize = 0;
        while i < n
            invariant
                n == d@.len(),
                i <= n,
                self.wf(),
                self.flake_path == old(self).flake_path,
                self.extra_args == old(self).extra_args,
                forall|m: Seq<char>|
                    #[trigger] self.has_host(m) <==> old(self).has_host(m) || (exists|k: int|
                        0 <= k < i && (#[trigger] d@[k])@ == m),
                forall|m: Seq<char>|
                    old(self).has_host(m) ==> #[trigger] self.host_at(m) == old(self).host_at(m),
                forall|m: Seq<char>|
                    !old(self).has_host(m) && #[trigger] self.has_host(m) ==> ({
                        &&& (m == current_hostname@ ==> self.host_at(m).connection is Local)
                        &&& (m != current_hostname@ ==> self.host_at(m).connection is Unconfigured)
                        &&& self.host_at(m).extra_args@.len() == 0
                    }),
            decreases n - i,
        {
            let name = d[i].clone();
            match self.find_host(name.as_str()) {
                Some(_) => {},
                None => {
                    let hc = if str_eq(name.as_str(), current_hostname) {
                        HostConfig::local()
                    } else {
                        HostConfig::unconfigured()
                    };
                    self.set_host(name, hc);
                },
            }
            i += 1;
        }
    }
}

impl Default for Config {
    /// The empty configuration: no flake path, no arguments, no hosts.
    fn default() -> (r: Config)
        ensures
            r.flake_path is None,
            r.extra_args@.len() == 0,
            r.hosts@.len() == 0,
            r.wf(),
    {
        Config { flake_path: None, extra_args: Vec::new(), hosts: Vec::new() }
    }
}

} // verus!
