//! The fixed set of gauges that the exporter publishes.
//!
//! A gauge holds a double-precision number. Here such a number is kept as
//! its IEEE 754 bit pattern in a `u64`; nothing in this crate computes with
//! it. Numbers are read and added by the functions that the caller hands to
//! the exporter.

use vstd::prelude::*;
use vstd::string::StringSliceAdditionalSpecFns;

verus! {

/// The bit pattern of `0.0`.
pub const ZERO: u64 = 0;

/// The bit pattern of `1.0`.
pub const ONE: u64 = 0x3ff0_0000_0000_0000;

/// The bit pattern of `2.0`.
pub const TWO: u64 = 0x4000_0000_0000_0000;

/// The gauges of the registry.
#[derive(Clone, Copy, Debug, PartialEq, Eq, Structural)]
pub enum Metric {
    ConnectedClients,
    MaxClients,
    UsedMemory,
    UsedCpuSys,
    UsedCpuUser,
    RoleMaster,
    DbSize,
    AvgTtl,
}

/// The gauge that the status text's key `key` is stored in, if there is one.
pub open spec fn metric_of(key: Seq<u8>) -> Option<Metric> {
    if key == "connected_clients".spec_bytes() {
        Some(Metric::ConnectedClients)
    } else if key == "maxclients".spec_bytes() {
        Some(Metric::MaxClients)
    } else if key == "used_memory".spec_bytes() {
        Some(Metric::UsedMemory)
    } else if key == "used_cpu_sys".spec_bytes() {
        Some(Metric::UsedCpuSys)
    } else if key == "used_cpu_user".spec_bytes() {
        Some(Metric::UsedCpuUser)
    } else if key == "role".spec_bytes() {
        Some(Metric::RoleMaster)
    } else if key == "dbsize".spec_bytes() {
        Some(Metric::DbSize)
    } else if key == "ttl".spec_bytes() {
        Some(Metric::AvgTtl)
    } else {
        None
    }
}

/// The name that the gauge is published under.
pub open spec fn name_of(metric: Metric) -> Seq<char> {
    match metric {
        Metric::ConnectedClients => "connected_clients"@,
        Metric::MaxClients => "max_clients"@,
        Metric::UsedMemory => "used_memory"@,
        Metric::UsedCpuSys => "used_cpu_sys"@,
        Metric::UsedCpuUser => "used_cpu_user"@,
        Metric::RoleMaster => "role_master"@,
        Metric::DbSize => "dbsize"@,
        Metric::AvgTtl => "avg_ttl"@,
    }
}

/// The help text that the gauge is published with.
pub open spec fn help_of(metric: Metric) -> Seq<char> {
    match metric {
        Metric::ConnectedClients => "Total connections connect to redis"@,
        Metric::MaxClients => "Max allowed connection number"@,
        Metric::UsedMemory => "Used memory in bytes"@,
        Metric::UsedCpuSys => "Used cpu in system"@,
        Metric::UsedCpuUser => "Used cpu in user"@,
        Metric::RoleMaster => "Current node is master"@,
        Metric::DbSize => "Total key number of current node"@,
        Metric::AvgTtl => "Total avg_ttl of all db in this node"@,
    }
}

/// The gauges of the registry, in the order in which they are published.
pub open spec fn registry() -> Seq<Metric> {
    seq![
        Metric::ConnectedClients,
        Metric::MaxClients,
        Metric::UsedMemory,
        Metric::UsedCpuSys,
        Metric::UsedCpuUser,
        Metric::RoleMaster,
        Metric::DbSize,
        Metric::AvgTtl,
    ]
}

/// The name that the liveness gauge is published under.
pub open spec fn liveness_name() -> Seq<char> {
    "node_status"@
}

/// The help text that the liveness gauge is published with.
pub open spec fn liveness_help() -> Seq<char> {
    "The status of current node"@
}

impl Metric {
    /// The gauge that the status text's key `key` is stored in, if there is
    /// one. Keys are told apart exactly, capitals included.
    pub fn of_key(key: &[u8]) -> (r: Option<Metric>)
        ensures
            r == metric_of(key@),
    {
        if crate::text::same(key, "connected_clients".as_bytes()) {
            Some(Metric::ConnectedClients)
        } else if crate::text::same(key, "maxclients".as_bytes()) {
            Some(Metric::MaxClients)
        } else if crate::text::same(key, "used_memory".as_bytes()) {
            Some(Metric::UsedMemory)
        } else if crate::text::same(key, "used_cpu_sys".as_bytes()) {
            Some(Metric::UsedCpuSys)
        } else if crate::text::same(key, "used_cpu_user".as_bytes()) {
            Some(Metric::UsedCpuUser)
        } else if crate::text::same(key, "role".as_bytes()) {
            Some(Metric::RoleMaster)
        } else if crate::text::same(key, "dbsize".as_bytes()) {
            Some(Metric::DbSize)
        } else if crate::text::same(key, "ttl".as_bytes()) {
            Some(Metric::AvgTtl)
        } else {
            None
        }
    }

    /// The name that the gauge is published under.
    pub fn name(self) -> (r: &'static str)
        ensures
            r@ == name_of(self),
    {
        match self {
            Metric::ConnectedClients => "connected_clients",
            Metric::MaxClients => "max_clients",
            Metric::UsedMemory => "used_memory",
            Metric::UsedCpuSys => "used_cpu_sys",
            Metric::UsedCpuUser => "used_cpu_user",
            Metric::RoleMaster => "role_master",
            Metric::DbSize => "dbsize",
            Metric::AvgTtl => "avg_ttl",
        }
    }

    /// The help text that the gauge is published with.
    pub fn help(self) -> (r: &'static str)
        ensures
            r@ == help_of(self),
    {
        match self {
            Metric::ConnectedClients => "Total connections connect to redis",
            Metric::MaxClients => "Max allowed connection number",
            Metric::UsedMemory => "Used memory in bytes",
            Metric::UsedCpuSys => "Used cpu in system",
            Metric::UsedCpuUser => "Used cpu in user",
            Metric::RoleMaster => "Current node is master",
            Metric::DbSize => "Total key number of current node",
            Metric::AvgTtl => "Total avg_ttl of all db in this node",
        }
    }

    /// The gauges of the registry, in the order in which they are published.
    pub fn all() -> (r: [Metric; 8])
        ensures
            r@ == registry(),
    {
        let r = [
            Metric::ConnectedClients,
            Metric::MaxClients,
            Metric::UsedMemory,
            Metric::UsedCpuSys,
            Metric::UsedCpuUser,
            Metric::RoleMaster,
            Metric::DbSize,
            Metric::AvgTtl,
        ];
        assert(r@ =~= registry());
        r
    }
}

/// The numbers that the gauges of the registry hold, each as its bit
/// pattern. The set of gauges is fixed: a scrape changes what they hold and
/// nothing else.
#[derive(Clone, Copy, Debug, PartialEq, Eq, Structural)]
pub struct Gauges {
    pub connected_clients: u64,
    pub maxclients: u64,
    pub used_memory: u64,
    pub used_cpu_sys: u64,
    pub used_cpu_user: u64,
    pub role: u64,
    pub dbsize: u64,
    pub ttl: u64,
}

impl Gauges {
    /// What the gauge `metric` holds.
    pub open spec fn get(self, metric: Metric) -> u64 {
        match metric {
            Metric::ConnectedClients => self.connected_clients,
            Metric::MaxClients => self.maxclients,
            Metric::UsedMemory => self.used_memory,
            Metric::UsedCpuSys => self.used_cpu_sys,
            Metric::UsedCpuUser => self.used_cpu_user,
            Metric::RoleMaster => self.role,
            Metric::DbSize => self.dbsize,
            Metric::AvgTtl => self.ttl,
        }
    }

    /// These gauges with `value` in the gauge `metric`.
    pub open spec fn with(self, metric: Metric, value: u64) -> Gauges {
        match metric {
            Metric::ConnectedClients => Gauges { connected_clients: value, ..self },
            Metric::MaxClients => Gauges { maxclients: value, ..self },
            Metric::UsedMemory => Gauges { used_memory: value, ..self },
            Metric::UsedCpuSys => Gauges { used_cpu_sys: value, ..self },
            Metric::UsedCpuUser => Gauges { used_cpu_user: value, ..self },
            Metric::RoleMaster => Gauges { role: value, ..self },
            Metric::DbSize => Gauges { dbsize: value, ..self },
            Metric::AvgTtl => Gauges { ttl: value, ..self },
        }
    }

    /// Every gauge at `0.0`, as a gauge is before anything was stored in it.
    pub open spec fn zeroed() -> Gauges {
        Gauges {
            connected_clients: ZERO,
            maxclients: ZERO,
            used_memory: ZERO,
            used_cpu_sys: ZERO,
            used_cpu_user: ZERO,
            role: ZERO,
            dbsize: ZERO,
            ttl: ZERO,
        }
    }

    /// Every gauge at `0.0`.
    pub fn new() -> (r: Gauges)
        ensures
            r == Gauges::zeroed(),
    {
        Gauges {
            connected_clients: ZERO,
            maxclients: ZERO,
            used_memory: ZERO,
            used_cpu_sys: ZERO,
            used_cpu_user: ZERO,
            role: ZERO,
            dbsize: ZERO,
            ttl: ZERO,
        }
    }

    /// What the gauge `metric` holds.
    pub fn value(&self, metric: Metric) -> (r: u64)
        ensures
            r == self.get(metric),
    {
        match metric {
            Metric::ConnectedClients => self.connected_clients,
            Metric::MaxClients => self.maxclients,
            Metric::UsedMemory => self.used_memory,
            Metric::UsedCpuSys => self.used_cpu_sys,
            Metric::UsedCpuUser => self.used_cpu_user,
            Metric::RoleMaster => self.role,
            Metric::DbSize => self.dbsize,
            Metric::AvgTtl => self.ttl,
        }
    }

    /// Stores `value` in the gauge `metric` and leaves the others as they are.
    pub fn set(&mut self, metric: Metric, value: u64)
        ensures
            *final(self) == old(self).with(metric, value),
    {
        match metric {
            Metric::ConnectedClients => self.connected_clients = value,
            Metric::MaxClients => self.maxclients = value,
            Metric::UsedMemory => self.used_memory = value,
            Metric::UsedCpuSys => self.used_cpu_sys = value,
            Metric::UsedCpuUser => self.used_cpu_user = value,
            Metric::RoleMaster => self.role = value,
            Metric::DbSize => self.dbsize = value,
            Metric::AvgTtl => self.ttl = value,
        }
    }
}

/// One published gauge: its name, its help text, and the bit pattern of the
/// number it holds.
#[derive(Clone, Copy, Debug)]
pub struct Sample {
    pub name: &'static str,
    pub help: &'static str,
    pub value: u64,
}

/// A `Sample` as plain values.
pub struct SampleView {
    pub name: Seq<char>,
    pub help: Seq<char>,
    pub value: u64,
}

impl View for Sample {
    type V = SampleView;

    open spec fn view(&self) -> SampleView {
        SampleView { name: self.name@, help: self.help@, value: self.value }
    }
}

impl Sample {
    /// The sample of the gauge `metric` of `gauges`.
    pub fn of(gauges: &Gauges, metric: Metric) -> (r: Sample)
        ensures
            r@ == sample_of(*gauges, metric),
    {
        Sample { name: metric.name(), help: metric.help(), value: gauges.value(metric) }
    }

    /// The sample of the liveness gauge when it holds `up`.
    pub fn liveness(up: u64) -> (r: Sample)
        ensures
            r@ == liveness_sample(up),
    {
        Sample { name: "node_status", help: "The status of current node", value: up }
    }
}

/// The samples as plain values, in their order.
pub open spec fn samples_of(samples: Seq<Sample>) -> Seq<SampleView> {
    samples.map_values(|sample: Sample| sample@)
}

/// The sample of the gauge `metric` of `gauges`.
pub open spec fn sample_of(gauges: Gauges, metric: Metric) -> SampleView {
    SampleView { name: name_of(metric), help: help_of(metric), value: gauges.get(metric) }
}

/// The samples of all the gauges of the registry, in the registry's order.
pub open spec fn registry_samples(gauges: Gauges) -> Seq<SampleView> {
    registry().map_values(|metric: Metric| sample_of(gauges, metric))
}

/// The sample of the liveness gauge when it holds `up`.
pub open spec fn liveness_sample(up: u64) -> SampleView {
    SampleView { name: liveness_name(), help: liveness_help(), value: up }
}

} // verus!
