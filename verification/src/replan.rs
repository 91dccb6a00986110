//! Planning metrics again, and telling agents and backends about it.
//!
//! The decisions stand here: which metric an agent's violation is about, which
//! configuration is pushed to whom. Looking plans up, writing configuration and
//! sending it is done by the caller, which hands in what it found.
use std::collections::hash_map::DefaultHasher;
use std::hash::Hasher;

use vstd::prelude::*;
use vstd::std_specs::hash::DefaultHasherAdditionalSpecFns;
use vstd::string::*;

use crate::label_map::LabelMap;
use crate::named_map;
use crate::text;
use crate::types::SketchType;

verus! {

// ── Hashes ────────────────────────────────────────────────────────────────────

/// A digit of a hexadecimal number, in lower case.
pub open spec fn hex_char(d: int) -> char {
    if d < 10 {
        (48 + d) as u8 as char
    } else {
        (87 + d) as u8 as char
    }
}

/// The last `places` hexadecimal digits of a number.
pub open spec fn hex_text(n: u64, places: nat) -> Seq<char>
    decreases places,
{
    if places == 0 {
        Seq::empty()
    } else {
        hex_text(n / 16, (places - 1) as nat).push(hex_char((n % 16) as int))
    }
}

fn push_hex(out: &mut String, n: u64, places: usize)
    ensures
        final(out)@ == old(out)@ + hex_text(n, places as nat),
    decreases places,
{
    if places == 0 {
        assert(out@ =~= old(out)@ + Seq::<char>::empty());
    } else {
        push_hex(out, n / 16, places - 1);
        let d: u8 = (n % 16) as u8;
        let c: char = if d < 10 {
            (48 + d) as char
        } else {
            (87 + d) as char
        };
        out.push(c);
        assert(out@ =~= old(out)@ + hex_text(n, places as nat));
    }
}

/// A number as sixteen hexadecimal digits.
pub fn hex16(n: u64) -> (r: String)
    ensures
        r@ == hex_text(n, 16),
{
    let mut out = String::new();
    push_hex(&mut out, n, 16);
    assert(out@ =~= hex_text(n, 16));
    out
}

/// The hash of a text under the default hasher of the standard library.
pub open spec fn text_hash(s: Seq<char>) -> u64 {
    DefaultHasher::spec_finish(seq![vstd::utf8::encode_utf8(s), seq![255u8]])
}

/// The hash of a text, as sixteen hexadecimal digits.
pub fn short_hash(s: &str) -> (r: String)
    ensures
        r@ == hex_text(text_hash(s@), 16),
{
    let mut h = DefaultHasher::new();
    h.write(s.as_bytes());
    let end: [u8; 1] = [255];
    h.write(end.as_slice());
    assert(end@ =~= seq![255u8]);
    assert(h@ =~= seq![vstd::utf8::encode_utf8(s@), seq![255u8]]);
    hex16(h.finish())
}

// ── Configuration ─────────────────────────────────────────────────────────────

/// Configuration that is sent to a collector.
#[derive(Debug)]
pub struct RemoteConfig {
    pub config_hash: String,
    pub yaml: String,
}

/// What [`RemoteConfig`] holds.
#[verifier::ext_equal]
pub struct ConfigView {
    pub config_hash: Seq<char>,
    pub yaml: Seq<char>,
}

impl View for RemoteConfig {
    type V = ConfigView;

    open spec fn view(&self) -> ConfigView {
        ConfigView { config_hash: self.config_hash@, yaml: self.yaml@ }
    }
}

/// The configuration with a YAML text, marked with its hash.
pub open spec fn config_of(yaml: Seq<char>) -> ConfigView {
    ConfigView { config_hash: hex_text(text_hash(yaml), 16), yaml }
}

/// The configuration with a YAML text, marked with its hash.
pub fn remote_config(yaml: String) -> (r: RemoteConfig)
    ensures
        r@ == config_of(yaml@),
{
    RemoteConfig { config_hash: short_hash(yaml.as_str()), yaml }
}

/// The configuration of an agent: what the typed path wrote where it is on and
/// wrote something, else what the other path wrote.
pub open spec fn chosen(
    typed_on: bool,
    typed: Option<Seq<char>>,
    plain: Option<Seq<char>>,
) -> Option<Seq<char>> {
    if typed_on && typed is Some {
        typed
    } else {
        plain
    }
}

/// The configuration of an agent, out of what the two paths wrote.
pub fn choose_agent_yaml(typed_on: bool, typed: Option<String>, plain: Option<String>) -> (r:
    Option<String>)
    ensures
        text::opt_text(r) == chosen(typed_on, text::opt_text(typed), text::opt_text(plain)),
{
    if typed_on && typed.is_some() {
        typed
    } else {
        plain
    }
}

// ── Actions ───────────────────────────────────────────────────────────────────

/// What is to be done after planning a metric again.
#[derive(Debug)]
pub enum Action {
    /// Send configuration to an agent.
    PushAgent { agent_id: String, config: RemoteConfig },
    /// Send configuration to every collector in the backend role.
    PushBackendRole { config: RemoteConfig },
    /// Post the streaming configuration of a metric to the query backend.
    PostStreaming { metric: String, yaml: String },
    /// Note which sketch an agent runs.
    SetSketchType { agent_id: String, sketch_type: SketchType },
}

/// What [`Action`] holds.
#[verifier::ext_equal]
#[allow(inconsistent_fields)]
pub enum ActionView {
    PushAgent { agent_id: Seq<char>, config: ConfigView },
    PushBackendRole { config: ConfigView },
    PostStreaming { metric: Seq<char>, yaml: Seq<char> },
    SetSketchType { agent_id: Seq<char>, sketch_type: SketchType },
}

impl View for Action {
    type V = ActionView;

    open spec fn view(&self) -> ActionView {
        match self {
            Action::PushAgent { agent_id, config } => ActionView::PushAgent {
                agent_id: agent_id@,
                config: config@,
            },
            Action::PushBackendRole { config } => ActionView::PushBackendRole { config: config@ },
            Action::PostStreaming { metric, yaml } => ActionView::PostStreaming {
                metric: metric@,
                yaml: yaml@,
            },
            Action::SetSketchType { agent_id, sketch_type } => ActionView::SetSketchType {
                agent_id: agent_id@,
                sketch_type: *sketch_type,
            },
        }
    }
}

/// The views of actions.
pub open spec fn actions_view(s: Seq<Action>) -> Seq<ActionView> {
    Seq::new(s.len(), |i: int| s[i]@)
}

fn push_action(out: &mut Vec<Action>, a: Action)
    ensures
        actions_view(final(out)@) == actions_view(old(out)@).push(a@),
{
    out.push(a);
    assert(actions_view(out@) =~= actions_view(old(out)@).push(a@));
}

/// What planning a metric again wrote.
#[derive(Debug)]
pub struct Replanned {
    /// The configuration of the agents, if it could be written.
    pub agent_yaml: Option<String>,
    /// The configuration of the backend collectors, if it could be written.
    pub backend_yaml: Option<String>,
    /// The streaming configuration, if it could be written.
    pub streaming_yaml: Option<String>,
    /// The agents that are connected.
    pub connected: Vec<String>,
    /// The sketch of the new plan.
    pub sketch_type: SketchType,
}

/// What [`Replanned`] holds.
#[verifier::ext_equal]
pub struct ReplannedView {
    pub agent_yaml: Option<Seq<char>>,
    pub backend_yaml: Option<Seq<char>>,
    pub streaming_yaml: Option<Seq<char>>,
    pub connected: Seq<Seq<char>>,
    pub sketch_type: SketchType,
}

impl View for Replanned {
    type V = ReplannedView;

    open spec fn view(&self) -> ReplannedView {
        ReplannedView {
            agent_yaml: text::opt_text(self.agent_yaml),
            backend_yaml: text::opt_text(self.backend_yaml),
            streaming_yaml: text::opt_text(self.streaming_yaml),
            connected: text::texts(self.connected@),
            sketch_type: self.sketch_type,
        }
    }
}

/// What a violation is about.
#[derive(Debug, PartialEq, Eq)]
pub enum Trigger {
    /// The metric that the agent serves.
    Metric(String),
    /// No metric in particular: every metric whose plan has expired.
    Expired,
}

// ── The replanner ─────────────────────────────────────────────────────────────

/// Which metric each agent serves, and where configuration goes.
#[derive(Debug)]
pub struct Replanner {
    opamp_endpoint: String,
    backend_client: bool,
    agent_to_metric: LabelMap,
}

/// What [`Replanner`] holds.
#[verifier::ext_equal]
pub struct ReplannerView {
    pub opamp_endpoint: Seq<char>,
    /// Whether there is a query backend to post to.
    pub backend_client: bool,
    /// The metric that each agent serves.
    pub agents: Seq<(Seq<char>, Seq<char>)>,
}

impl View for Replanner {
    type V = ReplannerView;

    closed spec fn view(&self) -> ReplannerView {
        ReplannerView {
            opamp_endpoint: self.opamp_endpoint@,
            backend_client: self.backend_client,
            agents: self.agent_to_metric@,
        }
    }
}

/// The agents that serve a metric.
pub open spec fn agents_of(agents: Seq<(Seq<char>, Seq<char>)>, metric: Seq<char>) -> Seq<Seq<char>>
    decreases agents.len(),
{
    if agents.len() == 0 {
        Seq::empty()
    } else if agents.last().1 == metric {
        agents_of(agents.drop_last(), metric).push(agents.last().0)
    } else {
        agents_of(agents.drop_last(), metric)
    }
}

/// The pushes of the agents' configuration.
pub open spec fn agent_pushes(agents: Seq<Seq<char>>, yaml: Option<Seq<char>>) -> Seq<ActionView> {
    match yaml {
        Some(y) => Seq::new(
            agents.len(),
            |i: int| ActionView::PushAgent { agent_id: agents[i], config: config_of(y) },
        ),
        None => Seq::empty(),
    }
}

/// The push of the backend collectors' configuration.
pub open spec fn backend_pushes(yaml: Option<Seq<char>>) -> Seq<ActionView> {
    match yaml {
        Some(y) => seq![ActionView::PushBackendRole { config: config_of(y) }],
        None => Seq::empty(),
    }
}

/// The post of the streaming configuration, where there is a query backend.
pub open spec fn streaming_posts(
    backend_client: bool,
    metric: Seq<char>,
    yaml: Option<Seq<char>>,
) -> Seq<ActionView> {
    if !backend_client {
        Seq::empty()
    } else {
        match yaml {
            Some(y) => seq![ActionView::PostStreaming { metric, yaml: y }],
            None => Seq::empty(),
        }
    }
}

/// The notes of the new sketch on every connected agent.
pub open spec fn sketch_notes(connected: Seq<Seq<char>>, sketch_type: SketchType) -> Seq<
    ActionView,
> {
    Seq::new(
        connected.len(),
        |i: int| ActionView::SetSketchType { agent_id: connected[i], sketch_type },
    )
}

/// What is to be done after planning a metric again, in order.
pub open spec fn replan_actions(r: ReplannerView, metric: Seq<char>, p: ReplannedView) -> Seq<
    ActionView,
> {
    agent_pushes(agents_of(r.agents, metric), p.agent_yaml) + backend_pushes(p.backend_yaml)
        + streaming_posts(r.backend_client, metric, p.streaming_yaml) + sketch_notes(
        p.connected,
        p.sketch_type,
    )
}

impl Replanner {
    /// No agents, no query backend.
    pub fn new(opamp_endpoint: String) -> (r: Replanner)
        ensures
            r@ == (ReplannerView {
                opamp_endpoint: opamp_endpoint@,
                backend_client: false,
                agents: Seq::empty(),
            }),
            named_map::distinct(r@.agents),
    {
        Replanner { opamp_endpoint, backend_client: false, agent_to_metric: LabelMap::new() }
    }

    /// With a query backend to post to.
    pub fn with_backend_client(self) -> (r: Replanner)
        ensures
            r@ == (ReplannerView { backend_client: true, ..self@ }),
            r@.agents == self@.agents,
    {
        Replanner {
            opamp_endpoint: self.opamp_endpoint,
            backend_client: true,
            agent_to_metric: self.agent_to_metric,
        }
    }

    /// Where agents connect to.
    pub fn opamp_endpoint(&self) -> (r: &str)
        ensures
            r@ == self@.opamp_endpoint,
    {
        self.opamp_endpoint.as_str()
    }

    /// Note that an agent serves a metric.
    pub fn register_agent(&mut self, agent_id: String, metric: String)
        ensures
            final(self)@ == (ReplannerView {
                agents: named_map::with_value(old(self)@.agents, agent_id@, metric@),
                ..old(self)@
            }),
            named_map::distinct(old(self)@.agents),
            named_map::distinct(final(self)@.agents),
    {
        self.agent_to_metric.insert(agent_id, metric);
    }

    /// Forget an agent.
    pub fn unregister_agent(&mut self, agent_id: &str)
        ensures
            final(self)@ == (ReplannerView {
                agents: named_map::without(old(self)@.agents, agent_id@),
                ..old(self)@
            }),
            named_map::distinct(old(self)@.agents),
            named_map::distinct(final(self)@.agents),
    {
        self.agent_to_metric.remove(agent_id);
    }

    /// The metric that each agent serves.
    pub fn agent_to_metric(&self) -> (r: &LabelMap)
        ensures
            r@ == self@.agents,
    {
        &self.agent_to_metric
    }

    /// The metric that an agent serves.
    pub fn metric_of(&self, agent_id: &str) -> (r: Option<String>)
        ensures
            named_map::distinct(self@.agents),
            text::opt_text(r) == named_map::value_of(self@.agents, agent_id@),
    {
        match self.agent_to_metric.get(agent_id) {
            Some(m) => Some(m.clone()),
            None => None,
        }
    }

    /// What is pushed to an agent that connects, given whether its metric has a
    /// plan and the configuration that was written for it.
    pub fn push_config_to_agent(&self, agent_id: &str, planned: bool, yaml: Option<String>) -> (r:
        Option<RemoteConfig>)
        ensures
            match r {
                Some(c) => named_map::value_of(self@.agents, agent_id@) is Some && planned
                    && text::opt_text(yaml) == Some(c@.yaml) && c@ == config_of(c@.yaml),
                None => named_map::value_of(self@.agents, agent_id@) is None || !planned
                    || yaml is None,
            },
            named_map::distinct(self@.agents),
    {
        if self.agent_to_metric.get(agent_id).is_none() || !planned {
            return None;
        }
        match yaml {
            Some(y) => Some(remote_config(y)),
            None => None,
        }
    }

    fn agents_for(&self, metric: &str) -> (r: Vec<String>)
        ensures
            named_map::distinct(self@.agents),
            text::texts(r@) == agents_of(self@.agents, metric@),
    {
        let ghost all = self@.agents;
        let mut out: Vec<String> = Vec::new();
        assert(text::texts(out@) =~= agents_of(all.take(0), metric@));
        let n = self.agent_to_metric.len();
        for i in 0..n
            invariant
                all == self.agent_to_metric@,
                n == all.len(),
                text::texts(out@) == agents_of(all.take(i as int), metric@),
        {
            let ghost before = text::texts(out@);
            assert(all.take(i as int + 1).drop_last() =~= all.take(i as int));
            if text::same(self.agent_to_metric.value(i).as_str(), metric) {
                out.push(self.agent_to_metric.name(i).clone());
                assert(text::texts(out@) =~= before.push(all[i as int].0));
            }
        }
        assert(all.take(all.len() as int) =~= all);
        out
    }

    /// What is to be done after planning a metric again, given what that wrote;
    /// `None` where the metric has no known workload, so that nothing was
    /// planned. Whether the metric was planned again comes first.
    pub fn replan_metric(&self, metric: &str, replanned: Option<Replanned>) -> (r: (
        bool,
        Vec<Action>,
    ))
        ensures
            r.0 == replanned is Some,
            named_map::distinct(self@.agents),
            match replanned {
                Some(p) => actions_view(r.1@) == replan_actions(self@, metric@, p@),
                None => r.1@.len() == 0,
            },
    {
        let agents = self.agents_for(metric);
        let mut out: Vec<Action> = Vec::new();
        assert(actions_view(out@) =~= Seq::<ActionView>::empty());
        let p = match replanned {
            None => {
                return (false, out);
            },
            Some(p) => p,
        };
        let ghost view = p@;
        let ghost targets = agents_of(self@.agents, metric@);
        match &p.agent_yaml {
            Some(yaml) => {
                assert(agents@.len() == targets.len());
                for i in 0..agents.len()
                    invariant
                        targets == text::texts(agents@),
                        view.agent_yaml == Some(yaml@),
                        actions_view(out@) == agent_pushes(targets, view.agent_yaml).take(i as int),
                {
                    push_action(
                        &mut out,
                        Action::PushAgent {
                            agent_id: agents[i].clone(),
                            config: remote_config(yaml.clone()),
                        },
                    );
                    assert(actions_view(out@) =~= agent_pushes(targets, view.agent_yaml).take(
                        i as int + 1,
                    ));
                }
                assert(actions_view(out@) =~= agent_pushes(targets, view.agent_yaml));
            },
            None => {},
        }
        assert(actions_view(out@) =~= agent_pushes(targets, view.agent_yaml));
        if let Some(yaml) = p.backend_yaml {
            push_action(&mut out, Action::PushBackendRole { config: remote_config(yaml) });
        }
        let ghost first = agent_pushes(targets, view.agent_yaml) + backend_pushes(
            view.backend_yaml,
        );
        assert(actions_view(out@) =~= first);
        if self.backend_client {
            if let Some(yaml) = p.streaming_yaml {
                push_action(
                    &mut out,
                    Action::PostStreaming { metric: metric.to_owned(), yaml },
                );
            }
        }
        let ghost second = first + streaming_posts(
            self@.backend_client,
            metric@,
            view.streaming_yaml,
        );
        assert(actions_view(out@) =~= second);
        let connected = p.connected;
        let ghost notes = sketch_notes(view.connected, view.sketch_type);
        for i in 0..connected.len()
            invariant
                view.connected == text::texts(connected@),
                view.sketch_type == p.sketch_type,
                notes == sketch_notes(view.connected, view.sketch_type),
                actions_view(out@) == second + notes.take(i as int),
        {
            push_action(
                &mut out,
                Action::SetSketchType {
                    agent_id: connected[i].clone(),
                    sketch_type: p.sketch_type,
                },
            );
            assert(actions_view(out@) =~= second + notes.take(i as int + 1));
        }
        assert(notes.take(notes.len() as int) =~= notes);
        (true, out)
    }

    /// What a violation on an agent is about: its metric, or else every metric
    /// whose plan has expired.
    pub fn handle_violation(&self, agent_id: &str) -> (r: Trigger)
        ensures
            match r {
                Trigger::Metric(m) => named_map::value_of(self@.agents, agent_id@) == Some(m@),
                Trigger::Expired => named_map::value_of(self@.agents, agent_id@) is None,
            },
            named_map::distinct(self@.agents),
    {
        match self.metric_of(agent_id) {
            Some(m) => Trigger::Metric(m),
            None => Trigger::Expired,
        }
    }
}

// ── Laws ──────────────────────────────────────────────────────────────────────

/// Configuration of a metric is pushed to the agents that serve it, and to no
/// others.
pub proof fn law_pushed_to_own_agents(
    agents: Seq<(Seq<char>, Seq<char>)>,
    metric: Seq<char>,
    agent: Seq<char>,
)
    requires
        named_map::distinct(agents),
    ensures
        agents_of(agents, metric).contains(agent) <==> named_map::value_of(agents, agent) == Some(
            metric,
        ),
    decreases agents.len(),
{
    if agents.len() > 0 {
        let init = agents.drop_last();
        let last = agents.last();
        assert(named_map::distinct(init)) by {
            assert forall|i: int, j: int| 0 <= i < j < init.len() implies (#[trigger] init[i]).0 != (
            #[trigger] init[j]).0 by {
                assert(agents[i].0 != agents[j].0);
            }
        }
        law_pushed_to_own_agents(init, metric, agent);
        let k = named_map::lemma_find(init, agent);
        named_map::lemma_first(init, k, agent, metric);
        assert(agents[agents.len() - 1] == last);
        if k < init.len() {
            assert(agents[k].0 != agents[agents.len() - 1].0);
            named_map::lemma_first(agents, k, agent, metric);
        } else {
            let at = if last.0 == agent {
                k
            } else {
                k + 1
            };
            assert forall|j: int| 0 <= j < at implies (#[trigger] agents[j]).0 != agent by {
                if j < init.len() {
                    assert(init[j] == agents[j]);
                }
            }
            named_map::lemma_first(agents, at, agent, metric);
        }
        let before = agents_of(init, metric);
        if last.1 == metric {
            let now = before.push(last.0);
            assert(now[now.len() - 1] == last.0);
            if before.contains(agent) {
                let i = choose|i: int| 0 <= i < before.len() && before[i] == agent;
                assert(now[i] == agent);
            }
            if now.contains(agent) && agent != last.0 {
                let i = choose|i: int| 0 <= i < now.len() && now[i] == agent;
                assert(before[i] == agent);
            }
        }
    }
}

/// The number that hexadecimal digits write.
pub open spec fn hex_value(s: Seq<char>) -> nat
    decreases s.len(),
{
    if s.len() == 0 {
        0
    } else {
        16 * hex_value(s.drop_last()) + (if s.last() <= '9' {
            (s.last() as int - '0' as int) as nat
        } else {
            (s.last() as int - 'a' as int + 10) as nat
        })
    }
}

/// The largest number that so many hexadecimal digits can write, and one.
pub open spec fn hex_limit(places: nat) -> nat
    decreases places,
{
    if places == 0 {
        1
    } else {
        16 * hex_limit((places - 1) as nat)
    }
}

/// A number that so many hexadecimal digits can write reads back from them.
pub proof fn law_hex_reads_back(n: u64, places: nat)
    requires
        n < hex_limit(places),
    ensures
        hex_text(n, places).len() == places,
        hex_value(hex_text(n, places)) == n,
    decreases places,
{
    if places > 0 {
        law_hex_reads_back(n / 16, (places - 1) as nat);
        let t = hex_text(n, places);
        let d = (n % 16) as int;
        assert(t.drop_last() =~= hex_text(n / 16, (places - 1) as nat));
        assert(t.last() == hex_char(d));
        if d < 10 {
            assert(hex_char(d) == (48 + d) as u8 as char);
            assert(hex_char(d) as int == 48 + d);
        } else {
            assert(hex_char(d) as int == 87 + d);
        }
    }
}

/// Sixteen hexadecimal digits write every hash.
pub proof fn law_every_hash_is_written(n: u64)
    ensures
        hex_value(hex_text(n, 16)) == n,
{
    reveal_with_fuel(hex_limit, 17);
    law_hex_reads_back(n, 16);
}

/// After planning a metric again its new configuration goes to the agents that
/// serve it and to no others, that of the backend to the backend role, the
/// streaming configuration under its own metric to the query backend if there is
/// one, and every connected agent is noted to run the new sketch; nothing else
/// is done.
pub proof fn law_actions_of_a_replan(
    r: ReplannerView,
    metric: Seq<char>,
    p: ReplannedView,
    a: ActionView,
)
    requires
        named_map::distinct(r.agents),
    ensures
        replan_actions(r, metric, p).contains(a) <==> match a {
            ActionView::PushAgent { agent_id, config } => {
                &&& named_map::value_of(r.agents, agent_id) == Some(metric)
                &&& p.agent_yaml == Some(config.yaml)
                &&& config == config_of(config.yaml)
            },
            ActionView::PushBackendRole { config } => {
                &&& p.backend_yaml == Some(config.yaml)
                &&& config == config_of(config.yaml)
            },
            ActionView::PostStreaming { metric: m, yaml } => {
                &&& r.backend_client
                &&& m == metric
                &&& p.streaming_yaml == Some(yaml)
            },
            ActionView::SetSketchType { agent_id, sketch_type } => {
                &&& p.connected.contains(agent_id)
                &&& sketch_type == p.sketch_type
            },
        },
{
    let own = agents_of(r.agents, metric);
    let one = agent_pushes(own, p.agent_yaml);
    let two = backend_pushes(p.backend_yaml);
    let three = streaming_posts(r.backend_client, metric, p.streaming_yaml);
    let four = sketch_notes(p.connected, p.sketch_type);
    let all = one + two + three + four;
    let n1 = one.len() as int;
    let n2 = n1 + two.len();
    let n3 = n2 + three.len();
    if all.contains(a) {
        let i = choose|i: int| 0 <= i < all.len() && all[i] == a;
        if i < n1 {
            assert(one[i] == a);
            assert(own.contains(own[i]));
            law_pushed_to_own_agents(r.agents, metric, own[i]);
        } else if i < n2 {
            assert(two[i - n1] == a);
        } else if i < n3 {
            assert(three[i - n2] == a);
        } else {
            assert(four[i - n3] == a);
            assert(p.connected.contains(p.connected[i - n3]));
        }
    }
    match a {
        ActionView::PushAgent { agent_id, config } => {
            law_pushed_to_own_agents(r.agents, metric, agent_id);
            if own.contains(agent_id) && p.agent_yaml == Some(config.yaml) && config == config_of(
                config.yaml,
            ) {
                let i = choose|i: int| 0 <= i < own.len() && own[i] == agent_id;
                assert(one[i] == a);
                assert(all[i] == a);
            }
        },
        ActionView::PushBackendRole { config } => {
            if p.backend_yaml == Some(config.yaml) && config == config_of(config.yaml) {
                assert(two[0] == a);
                assert(all[n1] == a);
            }
        },
        ActionView::PostStreaming { metric: m, yaml } => {
            if r.backend_client && m == metric && p.streaming_yaml == Some(yaml) {
                assert(three[0] == a);
                assert(all[n2] == a);
            }
        },
        ActionView::SetSketchType { agent_id, sketch_type } => {
            if p.connected.contains(agent_id) && sketch_type == p.sketch_type {
                let i = choose|i: int| 0 <= i < p.connected.len() && p.connected[i] == agent_id;
                assert(four[i] == a);
                assert(all[n3 + i] == a);
            }
        },
    }
}

} // verus!
