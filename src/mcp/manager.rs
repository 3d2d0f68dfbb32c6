use vstd::prelude::*;
use std::sync::Arc;
use crate::langgraph::table::{assoc, contains_name, find_key, has_name};
use crate::mcp::types::{
    McpConfig, McpServerConfig, McpServerStatus, McpTool, McpToolInfo, ServerConnectionStatus,
};

verus! {

/// A connected server: its client and the tools it listed when it connected.
pub struct Connection<C> {
    pub client: Arc<C>,
    pub tools: Vec<McpTool>,
}

/// Servers of a workspace. A server name must not hold `__`, which separates
/// server and tool in qualified tool names.
pub struct McpManager<C> {
    config: Option<McpConfig>,
    clients: Vec<(String, Connection<C>)>,
    workspace_path: Option<String>,
    auto_approve_cache: Vec<(String, Vec<String>)>,
}

/// The status reported for server `name` with configuration `cfg`.
pub open spec fn status_spec<C>(
    name: Seq<char>,
    cfg: McpServerConfig,
    clients: Seq<(String, Connection<C>)>,
) -> (ServerConnectionStatus, nat) {
    if cfg.disabled {
        (ServerConnectionStatus::Disabled, 0)
    } else {
        match assoc(clients, name) {
            Some(c) => (ServerConnectionStatus::Connected, c.tools@.len()),
            None => (ServerConnectionStatus::Disconnected, 0),
        }
    }
}

/// Names of the servers of `servers` that are not disabled, in order.
pub open spec fn enabled_names(servers: Seq<(String, McpServerConfig)>) -> Seq<Seq<char>>
    decreases servers.len(),
{
    if servers.len() == 0 {
        seq![]
    } else {
        let rest = enabled_names(servers.drop_last());
        if servers.last().1.disabled {
            rest
        } else {
            rest.push(servers.last().0@)
        }
    }
}

/// Tools of all connections, each with its server's name, server by server.
pub open spec fn all_tools<C>(clients: Seq<(String, Connection<C>)>) -> Seq<(Seq<char>, McpTool)>
    decreases clients.len(),
{
    if clients.len() == 0 {
        seq![]
    } else {
        let last = clients.last();
        all_tools(clients.drop_last()) + Seq::new(last.1.tools@.len(), |j: int| (last.0@, last.1.tools@[j]))
    }
}

/// The tools of `t` whose server is `only`, or all of them.
pub open spec fn tools_for(t: Seq<(Seq<char>, McpTool)>, only: Option<Seq<char>>) -> Seq<(Seq<char>, McpTool)>
    decreases t.len(),
{
    if t.len() == 0 {
        seq![]
    } else {
        let rest = tools_for(t.drop_last(), only);
        match only {
            Some(n) => if t.last().0 == n {
                rest.push(t.last())
            } else {
                rest
            },
            None => rest.push(t.last()),
        }
    }
}

impl<C> McpManager<C> {
    pub closed spec fn servers(&self) -> Option<Seq<(String, McpServerConfig)>> {
        match self.config {
            Some(c) => Some(c.mcp_servers@),
            None => None,
        }
    }

    pub closed spec fn connections(&self) -> Seq<(String, Connection<C>)> {
        self.clients@
    }

    pub closed spec fn workspace(&self) -> Option<Seq<char>> {
        match self.workspace_path {
            Some(p) => Some(p@),
            None => None,
        }
    }

    pub closed spec fn approvals(&self) -> Seq<(String, Vec<String>)> {
        self.auto_approve_cache@
    }

    pub fn new() -> (r: Self)
        ensures
            r.servers() is None,
            r.connections().len() == 0,
            r.workspace() is None,
            r.approvals().len() == 0,
    {
        McpManager {
            config: None,
            clients: Vec::new(),
            workspace_path: None,
            auto_approve_cache: Vec::new(),
        }
    }

    /// Starts initialisation for a workspace with the configuration loaded for
    /// it (none when there was none). Rebuilds the auto-approve lists from the
    /// configuration and gives the names of the servers to start.
    pub fn begin_init(&mut self, workspace_path: String, config: Option<McpConfig>) -> (to_start: Vec<String>)
        ensures
            final(self).workspace() == Some(workspace_path@),
            final(self).connections() == old(self).connections(),
            match config {
                None => final(self).servers() is None && to_start@.len() == 0
                    && final(self).approvals() == old(self).approvals(),
                Some(c) => final(self).servers() == Some(c.mcp_servers@)
                    && Seq::new(to_start@.len(), |i: int| to_start@[i]@) == enabled_names(c.mcp_servers@)
                    && final(self).approvals().len() == c.mcp_servers@.len()
                    && forall|i: int| 0 <= i < c.mcp_servers@.len() ==> {
                        &&& (#[trigger] final(self).approvals()[i]).0@ == c.mcp_servers@[i].0@
                        &&& final(self).approvals()[i].1@ == c.mcp_servers@[i].1.auto_approve@
                    },
            },
    {
        self.workspace_path = Some(workspace_path);
        self.config = config;
        if self.config.is_none() {
            return Vec::new();
        }
        self.rebuild_auto_approve_cache();
        let mut names: Vec<String> = Vec::new();
        match &self.config {
            Some(c) => {
                let mut i: usize = 0;
                while i < c.mcp_servers.len()
                    invariant
                        i <= c.mcp_servers@.len(),
                        Seq::new(names@.len(), |j: int| names@[j]@) == enabled_names(c.mcp_servers@.take(i as int)),
                    decreases c.mcp_servers@.len() - i,
                {
                    proof {
                        assert(c.mcp_servers@.take(i + 1).drop_last() =~= c.mcp_servers@.take(i as int));
                    }
                    if !c.mcp_servers[i].1.disabled {
                        names.push(c.mcp_servers[i].0.clone());
                    }
                    assert(Seq::new(names@.len(), |j: int| names@[j]@) =~= enabled_names(c.mcp_servers@.take(i + 1)));
                    i = i + 1;
                }
                assert(c.mcp_servers@.take(c.mcp_servers@.len() as int) =~= c.mcp_servers@);
            },
            None => {},
        }
        names
    }

    /// The auto-approve lists, one per configured server.
    fn rebuild_auto_approve_cache(&mut self)
        requires
            old(self).config is Some,
        ensures
            final(self).config == old(self).config,
            final(self).clients == old(self).clients,
            final(self).workspace_path == old(self).workspace_path,
            match old(self).config {
                Some(c) => final(self).auto_approve_cache@.len() == c.mcp_servers@.len() && forall|i: int|
                    0 <= i < c.mcp_servers@.len() ==> {
                        &&& (#[trigger] final(self).auto_approve_cache@[i]).0@ == c.mcp_servers@[i].0@
                        &&& final(self).auto_approve_cache@[i].1@ == c.mcp_servers@[i].1.auto_approve@
                    },
                None => false,
            },
    {
        let mut cache: Vec<(String, Vec<String>)> = Vec::new();
        match &self.config {
            Some(c) => {
                let mut i: usize = 0;
                while i < c.mcp_servers.len()
                    invariant
                        i <= c.mcp_servers@.len(),
                        cache@.len() == i,
                        forall|j: int| 0 <= j < i ==> {
                            &&& (#[trigger] cache@[j]).0@ == c.mcp_servers@[j].0@
                            &&& cache@[j].1@ == c.mcp_servers@[j].1.auto_approve@
                        },
                    decreases c.mcp_servers@.len() - i,
                {
                    let names = c.mcp_servers[i].1.auto_approve.clone();
                    assert(names@ =~= c.mcp_servers@[i as int].1.auto_approve@);
                    cache.push((c.mcp_servers[i].0.clone(), names));
                    i = i + 1;
                }
            },
            None => {},
        }
        self.auto_approve_cache = cache;
    }

    /// The configuration of server `name`.
    pub fn server_config(&self, name: &str) -> (r: Result<&McpServerConfig, String>)
        ensures
            match self.servers() {
                Some(s) => match assoc(s, name@) {
                    Some(c) => r matches Ok(x) && *x == c,
                    None => r is Err,
                },
                None => r is Err,
            },
    {
        let k = String::from_str(name);
        match &self.config {
            Some(c) => match find_key(&c.mcp_servers, &k) {
                Some(i) => Ok(&c.mcp_servers[i].1),
                None => Err(not_in_config(name)),
            },
            None => Err(not_in_config(name)),
        }
    }

    /// Records a connected server, replacing an earlier connection of that name.
    pub fn insert_client(&mut self, name: String, client: Arc<C>, tools: Vec<McpTool>)
        ensures
            assoc(final(self).connections(), name@) matches Some(c) && c.client == client
                && c.tools == tools,
            forall|k: Seq<char>| k != name@ ==> assoc(final(self).connections(), k) == assoc(old(self).connections(), k),
            final(self).servers() == old(self).servers(),
            final(self).workspace() == old(self).workspace(),
            final(self).approvals() == old(self).approvals(),
    {
        let ghost old_clients = self.clients@;
        self.clients.insert(0, (name, Connection { client, tools }));
        proof {
            assert(self.clients@.drop_first() =~= old_clients);
        }
    }

    /// Forgets the connection of server `name`, handing back its client.
    pub fn remove_client(&mut self, name: &str) -> (r: Option<Arc<C>>)
        ensures
            assoc(final(self).connections(), name@) is None,
            match assoc(old(self).connections(), name@) {
                Some(c) => r == Some(c.client),
                None => r is None,
            },
            final(self).servers() == old(self).servers(),
            final(self).workspace() == old(self).workspace(),
            final(self).approvals() == old(self).approvals(),
    {
        let k = String::from_str(name);
        let mut first: Option<Arc<C>> = None;
        let ghost orig = self.clients@;
        loop
            invariant
                k@ == name@,
                orig == old(self).clients@,
                forall|q: Seq<char>| q != k@ ==> #[trigger] assoc(self.clients@, q) == assoc(orig, q),
                first is None ==> assoc(self.clients@, k@) == assoc(orig, k@),
                first is Some ==> (assoc(orig, k@) matches Some(c) && first == Some(c.client)),
                self.config == old(self).config,
                self.workspace_path == old(self).workspace_path,
                self.auto_approve_cache == old(self).auto_approve_cache,
            decreases self.clients@.len(),
        {
            match find_key(&self.clients, &k) {
                Some(i) => {
                    let ghost before = self.clients@;
                    proof {
                        lemma_assoc_remove(before, i as int, k@);
                    }
                    let (_, conn) = self.clients.remove(i);
                    if first.is_none() {
                        first = Some(conn.client);
                    }
                },
                None => {
                    return first;
                },
            }
        }
    }

    /// Hands over all connections, leaving none.
    pub fn take_clients(&mut self) -> (r: Vec<(String, Connection<C>)>)
        ensures
            r@ == old(self).connections(),
            final(self).connections().len() == 0,
            final(self).servers() == old(self).servers(),
            final(self).workspace() == old(self).workspace(),
            final(self).approvals() == old(self).approvals(),
    {
        let mut taken: Vec<(String, Connection<C>)> = Vec::new();
        std::mem::swap(&mut self.clients, &mut taken);
        taken
    }

    /// Status of every configured server, in configuration order: disabled,
    /// connected with its number of tools, or disconnected.
    pub fn list_servers(&self) -> (r: Vec<McpServerStatus>)
        ensures
            match self.servers() {
                None => r@.len() == 0,
                Some(s) => r@.len() == s.len() && forall|i: int| 0 <= i < s.len() ==> {
                    let st = #[trigger] r@[i];
                    let want = status_spec(s[i].0@, s[i].1, self.connections());
                    st.name@ == s[i].0@ && st.status == want.0 && st.tools_count == want.1 && st.error is None
                },
            },
    {
        let mut statuses: Vec<McpServerStatus> = Vec::new();
        match &self.config {
            Some(c) => {
                let mut i: usize = 0;
                while i < c.mcp_servers.len()
                    invariant
                        i <= c.mcp_servers@.len(),
                        self.servers() == Some(c.mcp_servers@),
                        statuses@.len() == i,
                        forall|j: int| 0 <= j < i ==> {
                            let st = #[trigger] statuses@[j];
                            let want = status_spec(c.mcp_servers@[j].0@, c.mcp_servers@[j].1, self.connections());
                            st.name@ == c.mcp_servers@[j].0@ && st.status == want.0 && st.tools_count == want.1 && st.error is None
                        },
                    decreases c.mcp_servers@.len() - i,
                {
                    let name = &c.mcp_servers[i].0;
                    let status = if c.mcp_servers[i].1.disabled {
                        McpServerStatus { name: name.clone(), status: ServerConnectionStatus::Disabled, tools_count: 0, error: None }
                    } else {
                        match find_key(&self.clients, name) {
                            Some(j) => McpServerStatus {
                                name: name.clone(),
                                status: ServerConnectionStatus::Connected,
                                tools_count: self.clients[j].1.tools.len(),
                                error: None,
                            },
                            None => McpServerStatus {
                                name: name.clone(),
                                status: ServerConnectionStatus::Disconnected,
                                tools_count: 0,
                                error: None,
                            },
                        }
                    };
                    statuses.push(status);
                    i = i + 1;
                }
            },
            None => {},
        }
        statuses
    }

    /// Every tool of every connected server, with the server's name.
    pub fn get_all_tools(&self) -> (r: Vec<(String, McpTool)>)
        ensures
            r@.len() == all_tools(self.connections()).len(),
            forall|i: int| 0 <= i < r@.len() ==> (#[trigger] r@[i]).0@ == all_tools(self.connections())[i].0
                && r@[i].1 == all_tools(self.connections())[i].1,
    {
        let mut out: Vec<(String, McpTool)> = Vec::new();
        let mut i: usize = 0;
        while i < self.clients.len()
            invariant
                i <= self.clients@.len(),
                out@.len() == all_tools(self.clients@.take(i as int)).len(),
                forall|k: int| 0 <= k < out@.len() ==> (#[trigger] out@[k]).0@ == all_tools(self.clients@.take(i as int))[k].0
                    && out@[k].1 == all_tools(self.clients@.take(i as int))[k].1,
            decreases self.clients@.len() - i,
        {
            let ghost prev = all_tools(self.clients@.take(i as int));
            let ghost next = all_tools(self.clients@.take(i + 1));
            proof {
                assert(self.clients@.take(i + 1).drop_last() =~= self.clients@.take(i as int));
            }
            let ghost base = out@.len();
            let tools = &self.clients[i].1.tools;
            let mut j: usize = 0;
            while j < tools.len()
                invariant
                    j <= tools@.len(),
                    i < self.clients@.len(),
                    tools == &self.clients@[i as int].1.tools,
                    base == prev.len(),
                    next == prev + Seq::new(tools@.len(), |t: int| (self.clients@[i as int].0@, tools@[t])),
                    out@.len() == base + j,
                    forall|k: int| 0 <= k < base ==> (#[trigger] out@[k]).0@ == prev[k].0 && out@[k].1 == prev[k].1,
                    forall|k: int| base <= k < base + j ==> (#[trigger] out@[k]).0@ == next[k].0 && out@[k].1 == next[k].1,
                decreases tools@.len() - j,
            {
                out.push((self.clients[i].0.clone(), tools[j].clone()));
                j = j + 1;
            }
            i = i + 1;
        }
        assert(self.clients@.take(self.clients@.len() as int) =~= self.clients@);
        out
    }

    /// Tools for display: those of `server_name`, or of every server.
    pub fn tool_infos(&self, server_name: Option<&str>) -> (r: Vec<McpToolInfo>)
        ensures
            ({
                let want = tools_for(
                    all_tools(self.connections()),
                    match server_name {
                        Some(n) => Some(n@),
                        None => None,
                    },
                );
                &&& r@.len() == want.len()
                &&& forall|i: int|
                    0 <= i < r@.len() ==> {
                        let x = #[trigger] r@[i];
                        &&& x.server_name@ == want[i].0
                        &&& x.name == want[i].1.name
                        &&& x.description == want[i].1.description
                        &&& x.input_schema == want[i].1.input_schema
                    }
            }),
    {
        let all = self.get_all_tools();
        let ghost only = match server_name {
            Some(n) => Some(n@),
            None => None,
        };
        let ghost t = all_tools(self.connections());
        let filter = match server_name {
            Some(n) => Some(String::from_str(n)),
            None => None,
        };
        let mut out: Vec<McpToolInfo> = Vec::new();
        let mut i: usize = 0;
        while i < all.len()
            invariant
                i <= all@.len(),
                all@.len() == t.len(),
                forall|k: int| 0 <= k < all@.len() ==> (#[trigger] all@[k]).0@ == t[k].0 && all@[k].1 == t[k].1,
                match filter {
                    Some(f) => only == Some(f@),
                    None => only is None,
                },
                out@.len() == tools_for(t.take(i as int), only).len(),
                forall|k: int| 0 <= k < out@.len() ==> {
                    let x = #[trigger] out@[k];
                    let w = tools_for(t.take(i as int), only)[k];
                    &&& x.server_name@ == w.0
                    &&& x.name == w.1.name
                    &&& x.description == w.1.description
                    &&& x.input_schema == w.1.input_schema
                },
            decreases all@.len() - i,
        {
            proof {
                assert(t.take(i + 1).drop_last() =~= t.take(i as int));
            }
            let keep = match &filter {
                Some(f) => all[i].0 == *f,
                None => true,
            };
            if keep {
                let tool = all[i].1.clone();
                out.push(McpToolInfo {
                    server_name: all[i].0.clone(),
                    name: tool.name,
                    description: tool.description,
                    input_schema: tool.input_schema,
                });
            }
            i = i + 1;
        }
        assert(t.take(t.len() as int) =~= t);
        out
    }

    /// The client of server `name`, shared.
    pub fn get_client(&self, server_name: &str) -> (r: Option<Arc<C>>)
        ensures
            match assoc(self.connections(), server_name@) {
                Some(c) => r == Some(c.client),
                None => r is None,
            },
    {
        let k = String::from_str(server_name);
        match find_key(&self.clients, &k) {
            Some(i) => Some(Arc::clone(&self.clients[i].1.client)),
            None => None,
        }
    }

    /// Whether `tool_name` of `server_name` runs without asking.
    pub fn is_auto_approved(&self, server_name: &str, tool_name: &str) -> (r: bool)
        ensures
            r == match assoc(self.approvals(), server_name@) {
                Some(list) => has_name(list@, tool_name@),
                None => false,
            },
    {
        let k = String::from_str(server_name);
        let t = String::from_str(tool_name);
        match find_key(&self.auto_approve_cache, &k) {
            Some(i) => contains_name(&self.auto_approve_cache[i].1, &t),
            None => false,
        }
    }

    pub fn is_initialized(&self) -> (r: bool)
        ensures
            r == self.workspace() is Some,
    {
        self.workspace_path.is_some()
    }

    pub fn workspace_path(&self) -> (r: Option<&str>)
        ensures
            match self.workspace() {
                Some(p) => r matches Some(x) && x@ == p,
                None => r is None,
            },
    {
        match &self.workspace_path {
            Some(p) => Some(p.as_str()),
            None => None,
        }
    }
}

fn not_in_config(name: &str) -> (r: String)
    ensures
        r@ == "Server '"@ + name@ + "' not found in config"@,
{
    let mut m = String::from_str("Server '");
    m.append(name);
    m.append("' not found in config");
    m
}

proof fn lemma_assoc_remove<V>(s: Seq<(String, V)>, i: int, k: Seq<char>)
    requires
        0 <= i < s.len(),
        s[i].0@ == k,
    ensures
        forall|q: Seq<char>| q != k ==> #[trigger] assoc(s.remove(i), q) == assoc(s, q),
    decreases i,
{
    assert forall|q: Seq<char>| q != k implies #[trigger] assoc(s.remove(i), q) == assoc(s, q) by {
        if i == 0 {
            assert(s.remove(0) =~= s.drop_first());
        } else {
            lemma_assoc_remove(s.drop_first(), i - 1, k);
            let t = s.remove(i);
            assert(t[0] == s[0]);
            assert(t.drop_first() =~= s.drop_first().remove(i - 1));
            if s[0].0@ != q {
                assert(assoc(t, q) == assoc(t.drop_first(), q));
                assert(assoc(s.drop_first().remove(i - 1), q) == assoc(s.drop_first(), q));
            }
        }
    }
}

} // verus!
