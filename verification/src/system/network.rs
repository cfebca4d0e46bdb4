//! A network record with its topics, and a builder that fills unset fields
//! with defaults.

use vstd::prelude::*;

verus! {

/// A network: id, name, its data, alert and monitor topics, and whether it is active.
#[derive(Debug, Clone)]
pub struct Network {
    id_network: String,
    name_network: String,
    topic_data: String,
    topic_alert: String,
    topic_monitor: String,
    active: bool,
}

/// The value of a `Network`: id, name, data, alert and monitor topics, active.
pub struct NetworkView {
    pub id_network: Seq<char>,
    pub name_network: Seq<char>,
    pub topic_data: Seq<char>,
    pub topic_alert: Seq<char>,
    pub topic_monitor: Seq<char>,
    pub active: bool,
}

impl View for Network {
    type V = NetworkView;

    closed spec fn view(&self) -> NetworkView {
        NetworkView {
            id_network: self.id_network@,
            name_network: self.name_network@,
            topic_data: self.topic_data@,
            topic_alert: self.topic_alert@,
            topic_monitor: self.topic_monitor@,
            active: self.active,
        }
    }
}

impl Network {
    pub fn id_network(&self) -> (r: &str)
        ensures
            r@ == self@.id_network,
    {
        self.id_network.as_str()
    }

    pub fn name_network(&self) -> (r: &str)
        ensures
            r@ == self@.name_network,
    {
        self.name_network.as_str()
    }

    pub fn topic_data(&self) -> (r: &str)
        ensures
            r@ == self@.topic_data,
    {
        self.topic_data.as_str()
    }

    pub fn topic_alert(&self) -> (r: &str)
        ensures
            r@ == self@.topic_alert,
    {
        self.topic_alert.as_str()
    }

    pub fn topic_monitor(&self) -> (r: &str)
        ensures
            r@ == self@.topic_monitor,
    {
        self.topic_monitor.as_str()
    }

    pub fn active(&self) -> (r: &bool)
        ensures
            *r == self@.active,
    {
        &self.active
    }

    pub fn set_id_network(&mut self, id_network: String)
        ensures
            final(self)@ == (NetworkView { id_network: id_network@, ..old(self)@ }),
    {
        self.id_network = id_network;
    }

    pub fn set_name_network(&mut self, name_network: String)
        ensures
            final(self)@ == (NetworkView { name_network: name_network@, ..old(self)@ }),
    {
        self.name_network = name_network;
    }

    pub fn set_topic_data(&mut self, topic_data: String)
        ensures
            final(self)@ == (NetworkView { topic_data: topic_data@, ..old(self)@ }),
    {
        self.topic_data = topic_data;
    }

    pub fn set_topic_alert(&mut self, topic_alert: String)
        ensures
            final(self)@ == (NetworkView { topic_alert: topic_alert@, ..old(self)@ }),
    {
        self.topic_alert = topic_alert;
    }

    pub fn set_topic_monitor(&mut self, topic_monitor: String)
        ensures
            final(self)@ == (NetworkView { topic_monitor: topic_monitor@, ..old(self)@ }),
    {
        self.topic_monitor = topic_monitor;
    }

    pub fn set_active(&mut self, active: bool)
        ensures
            final(self)@ == (NetworkView { active, ..old(self)@ }),
    {
        self.active = active;
    }
}

/// A network under construction: each field set so far.
#[derive(Debug, Clone)]
pub struct NetworkBuilder {
    id_network: Option<String>,
    name_network: Option<String>,
    topic_data: Option<String>,
    topic_alert: Option<String>,
    topic_monitor: Option<String>,
    active: Option<bool>,
}

/// The value of a `NetworkBuilder`: each field set so far.
pub struct NetworkBuilderView {
    pub id_network: Option<Seq<char>>,
    pub name_network: Option<Seq<char>>,
    pub topic_data: Option<Seq<char>>,
    pub topic_alert: Option<Seq<char>>,
    pub topic_monitor: Option<Seq<char>>,
    pub active: Option<bool>,
}

/// The view of an optional text.
pub open spec fn opt_text(t: Option<String>) -> Option<Seq<char>> {
    match t {
        Some(s) => Some(s@),
        None => None,
    }
}

impl View for NetworkBuilder {
    type V = NetworkBuilderView;

    closed spec fn view(&self) -> NetworkBuilderView {
        NetworkBuilderView {
            id_network: opt_text(self.id_network),
            name_network: opt_text(self.name_network),
            topic_data: opt_text(self.topic_data),
            topic_alert: opt_text(self.topic_alert),
            topic_monitor: opt_text(self.topic_monitor),
            active: self.active,
        }
    }
}

/// A set text, or `unknown`.
pub open spec fn or_unknown(t: Option<Seq<char>>) -> Seq<char> {
    match t {
        Some(s) => s,
        None => "unknown"@,
    }
}

/// The network that a builder yields: unset texts are `unknown` and an unset
/// flag is active.
pub open spec fn built(b: NetworkBuilderView) -> NetworkView {
    NetworkView {
        id_network: or_unknown(b.id_network),
        name_network: or_unknown(b.name_network),
        topic_data: or_unknown(b.topic_data),
        topic_alert: or_unknown(b.topic_alert),
        topic_monitor: or_unknown(b.topic_monitor),
        active: match b.active {
            Some(a) => a,
            None => true,
        },
    }
}

fn text_or_unknown(t: Option<String>) -> (s: String)
    ensures
        s@ == or_unknown(opt_text(t)),
{
    match t {
        Some(s) => s,
        None => String::from_str("unknown"),
    }
}

impl NetworkBuilder {
    /// A builder with nothing set.
    pub fn new() -> (b: Self)
        ensures
            b@ == (NetworkBuilderView {
                id_network: None,
                name_network: None,
                topic_data: None,
                topic_alert: None,
                topic_monitor: None,
                active: None,
            }),
    {
        NetworkBuilder {
            id_network: None,
            name_network: None,
            topic_data: None,
            topic_alert: None,
            topic_monitor: None,
            active: None,
        }
    }

    pub fn id_network(self, id_network: String) -> (b: Self)
        ensures
            b@ == (NetworkBuilderView { id_network: Some(id_network@), ..self@ }),
    {
        NetworkBuilder { id_network: Some(id_network), ..self }
    }

    pub fn name_network(self, name_network: String) -> (b: Self)
        ensures
            b@ == (NetworkBuilderView { name_network: Some(name_network@), ..self@ }),
    {
        NetworkBuilder { name_network: Some(name_network), ..self }
    }

    pub fn topic_data(self, topic_data: String) -> (b: Self)
        ensures
            b@ == (NetworkBuilderView { topic_data: Some(topic_data@), ..self@ }),
    {
        NetworkBuilder { topic_data: Some(topic_data), ..self }
    }

    pub fn topic_alert(self, topic_alert: String) -> (b: Self)
        ensures
            b@ == (NetworkBuilderView { topic_alert: Some(topic_alert@), ..self@ }),
    {
        NetworkBuilder { topic_alert: Some(topic_alert), ..self }
    }

    pub fn topic_monitor(self, topic_monitor: String) -> (b: Self)
        ensures
            b@ == (NetworkBuilderView { topic_monitor: Some(topic_monitor@), ..self@ }),
    {
        NetworkBuilder { topic_monitor: Some(topic_monitor), ..self }
    }

    pub fn active(self, is_active: bool) -> (b: Self)
        ensures
            b@ == (NetworkBuilderView { active: Some(is_active), ..self@ }),
    {
        NetworkBuilder { active: Some(is_active), ..self }
    }

    /// The network; building never fails.
    pub fn build(self) -> (r: Result<Network, String>)
        ensures
            r matches Ok(n) && n@ == built(self@),
    {
        Ok(
            Network {
                id_network: text_or_unknown(self.id_network),
                name_network: text_or_unknown(self.name_network),
                topic_data: text_or_unknown(self.topic_data),
                topic_alert: text_or_unknown(self.topic_alert),
                topic_monitor: text_or_unknown(self.topic_monitor),
                active: match self.active {
                    Some(a) => a,
                    None => true,
                },
            },
        )
    }
}

} // verus!
