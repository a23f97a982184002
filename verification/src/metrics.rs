use vstd::prelude::*;

use crate::decimal::{u64_dec, u64_to_string};

verus! {

/// One hardware temperature sensor as the platform reports it: a label and
/// the decimal text of its reading in degrees Celsius. The logic here only
/// selects by label and formats, never computes on the reading, so the
/// reading is carried as text.
pub struct Sensor {
    pub label: String,
    pub temperature: String,
}

/// The reading of the first sensor in `sensors` whose label is `l`, if any.
pub open spec fn spec_find(sensors: Seq<Sensor>, l: Seq<char>) -> Option<Seq<char>>
    decreases sensors.len(),
{
    if sensors.len() == 0 {
        None
    } else if sensors[0].label@ == l {
        Some(sensors[0].temperature@)
    } else {
        spec_find(sensors.skip(1), l)
    }
}

/// The selected reading: the first sensor labeled "Composite" if one is
/// present anywhere in the list, else the first labeled "CPU", else none.
pub open spec fn spec_selected(sensors: Seq<Sensor>) -> Option<Seq<char>> {
    match spec_find(sensors, "Composite"@) {
        Some(t) => Some(t),
        None => spec_find(sensors, "CPU"@),
    }
}

fn find_temperature(sensors: &Vec<Sensor>, label: &String) -> (r: Option<String>)
    ensures
        r is Some <==> spec_find(sensors@, label@) is Some,
        r matches Some(t) ==> spec_find(sensors@, label@) == Some(t@),
{
    let n = sensors.len();
    let mut i: usize = 0;
    proof {
        assert(sensors@.skip(0) =~= sensors@);
    }
    while i < n
        invariant
            n == sensors@.len(),
            i <= n,
            spec_find(sensors@, label@) == spec_find(sensors@.skip(i as int), label@),
        decreases n - i,
    {
        proof {
            assert(sensors@.skip(i as int)[0] == sensors@[i as int]);
        }
        let s = &sensors[i];
        if s.label == *label {
            return Some(s.temperature.clone());
        }
        proof {
            assert(sensors@.skip(i as int).skip(1) =~= sensors@.skip(i as int + 1));
        }
        i = i + 1;
    }
    None
}

/// The representative temperature reading: a sensor labeled "Composite" is
/// preferred wherever it stands; a sensor labeled "CPU" is the fallback.
pub fn temperature(sensors: &Vec<Sensor>) -> (r: Option<String>)
    ensures
        r is Some <==> spec_selected(sensors@) is Some,
        r matches Some(t) ==> spec_selected(sensors@) == Some(t@),
{
    let composite = String::from_str("Composite");
    match find_temperature(sensors, &composite) {
        Some(t) => Some(t),
        None => {
            let cpu = String::from_str("CPU");
            find_temperature(sensors, &cpu)
        },
    }
}

/// One snapshot of the host metrics, rebuilt every cycle.
pub struct PiStats {
    /// CPU frequency, platform clock units.
    pub cpu_frequency: u64,
    /// Decimal text of the selected temperature in degrees Celsius;
    /// "0" when no preferred sensor was found.
    pub temperature: String,
    /// Available memory in kilobytes: what applications can use at once,
    /// counting cache and buffers that the OS reclaims under pressure.
    pub memory_available_kb: u64,
}

/// The one output line: `<freq> Mhz / <temp> C / <mem> kB`.
pub open spec fn spec_line(freq: u64, temp: Seq<char>, mem: u64) -> Seq<char> {
    u64_dec(freq as nat) + " Mhz / "@ + temp + " C / "@ + u64_dec(mem as nat) + " kB"@
}

/// The temperature text a snapshot holds for a given sensor list.
pub open spec fn spec_temperature_text(sensors: Seq<Sensor>) -> Seq<char> {
    match spec_selected(sensors) {
        Some(t) => t,
        None => "0"@,
    }
}

impl PiStats {
    /// Renders the snapshot as the one output line.
    pub fn fmt(&self) -> (s: String)
        ensures
            s@ == spec_line(self.cpu_frequency, self.temperature@, self.memory_available_kb),
    {
        let mut s = u64_to_string(self.cpu_frequency);
        s.append(" Mhz / ");
        s.append(self.temperature.as_str());
        s.append(" C / ");
        let mem = u64_to_string(self.memory_available_kb);
        s.append(mem.as_str());
        s.append(" kB");
        s
    }
}

/// Builds a snapshot from the sampled values, substituting a zero
/// temperature when no preferred sensor is present.
pub fn stats(cpu_frequency: u64, sensors: &Vec<Sensor>, memory_available_kb: u64) -> (r: PiStats)
    ensures
        r.cpu_frequency == cpu_frequency,
        r.memory_available_kb == memory_available_kb,
        r.temperature@ == spec_temperature_text(sensors@),
{
    let temperature_text = match temperature(sensors) {
        Some(t) => t,
        None => String::from_str("0"),
    };
    PiStats { cpu_frequency, temperature: temperature_text, memory_available_kb }
}

/// One whole cycle's computation: from the sampled values to the line that
/// overwrites the terminal's current one.
pub fn status_line(cpu_frequency: u64, sensors: &Vec<Sensor>, memory_available_kb: u64) -> (s: String)
    ensures
        s@ == spec_line(cpu_frequency, spec_temperature_text(sensors@), memory_available_kb),
{
    stats(cpu_frequency, sensors, memory_available_kb).fmt()
}

/// Where `spec_find` answers, a sensor with that label stands in the list,
/// and the answer is the reading of such a sensor; where it does not, no
/// sensor carries the label.
pub proof fn lemma_find_characterized(sensors: Seq<Sensor>, l: Seq<char>)
    ensures
        (spec_find(sensors, l) is Some) <==> (exists|i: int|
            0 <= i < sensors.len() && sensors[i].label@ == l),
        spec_find(sensors, l) matches Some(t) ==> (exists|i: int|
            0 <= i < sensors.len() && sensors[i].label@ == l && sensors[i].temperature@ == t),
    decreases sensors.len(),
{
    if sensors.len() == 0 {
    } else if sensors[0].label@ == l {
    } else {
        let tail = sensors.skip(1);
        lemma_find_characterized(tail, l);
        if spec_find(sensors, l) is Some {
            let t = spec_find(sensors, l)->Some_0;
            let j = choose|j: int|
                0 <= j < tail.len() && tail[j].label@ == l && tail[j].temperature@ == t;
            assert(sensors[j + 1].label@ == l && sensors[j + 1].temperature@ == t);
        }
        if exists|i: int| 0 <= i < sensors.len() && sensors[i].label@ == l {
            let i = choose|i: int| 0 <= i < sensors.len() && sensors[i].label@ == l;
            assert(tail[i - 1].label@ == l);
        }
    }
}

/// Law: if a sensor labeled "Composite" is present, a "Composite" reading is
/// selected, wherever in the list that sensor stands and whatever else the
/// list holds.
pub proof fn lemma_composite_preferred(sensors: Seq<Sensor>)
    requires
        exists|i: int| 0 <= i < sensors.len() && sensors[i].label@ == "Composite"@,
    ensures
        exists|j: int|
            0 <= j < sensors.len() && sensors[j].label@ == "Composite"@ && spec_selected(sensors)
                == Some(sensors[j].temperature@),
{
    lemma_find_characterized(sensors, "Composite"@);
}

/// Law: with no "Composite" sensor present, a "CPU" sensor's reading is
/// selected if one is present.
pub proof fn lemma_cpu_fallback(sensors: Seq<Sensor>)
    requires
        forall|i: int| 0 <= i < sensors.len() ==> sensors[i].label@ != "Composite"@,
        exists|i: int| 0 <= i < sensors.len() && sensors[i].label@ == "CPU"@,
    ensures
        exists|j: int|
            0 <= j < sensors.len() && sensors[j].label@ == "CPU"@ && spec_selected(sensors)
                == Some(sensors[j].temperature@),
{
    lemma_find_characterized(sensors, "Composite"@);
    lemma_find_characterized(sensors, "CPU"@);
}

/// Law: with neither a "Composite" nor a "CPU" sensor present, nothing is
/// selected, and the snapshot falls back to a zero temperature.
pub proof fn lemma_no_preferred_sensor(sensors: Seq<Sensor>)
    requires
        forall|i: int|
            0 <= i < sensors.len() ==> sensors[i].label@ != "Composite"@ && sensors[i].label@
                != "CPU"@,
    ensures
        spec_selected(sensors) is None,
        spec_temperature_text(sensors) == "0"@,
{
    lemma_find_characterized(sensors, "Composite"@);
    lemma_find_characterized(sensors, "CPU"@);
}

/// Law: an empty sensor list selects nothing, so the line is formatted with
/// a zero temperature.
pub proof fn lemma_empty_sensors_default(sensors: Seq<Sensor>)
    requires
        sensors.len() == 0,
    ensures
        spec_temperature_text(sensors) == "0"@,
{
    lemma_no_preferred_sensor(sensors);
}

/// Law: the rendered line is a function of the snapshot's fields alone: two
/// snapshots that agree on them render identically, and one snapshot
/// rendered twice renders identically.
pub proof fn lemma_fmt_deterministic(a: PiStats, b: PiStats)
    requires
        a.cpu_frequency == b.cpu_frequency,
        a.temperature@ == b.temperature@,
        a.memory_available_kb == b.memory_available_kb,
    ensures
        spec_line(a.cpu_frequency, a.temperature@, a.memory_available_kb) == spec_line(
            b.cpu_frequency,
            b.temperature@,
            b.memory_available_kb,
        ),
{
}

} // verus!
