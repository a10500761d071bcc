//! The frequency of a processor, with the lowest and the highest that were seen.

use vstd::prelude::*;

verus! {

/// A processor's frequency: the current one, and the range that was seen so far.
#[derive(Debug, Clone, Copy, PartialEq, Eq, Structural)]
pub struct CPUFrequency {
    pub current: u64,
    pub min: u64,
    pub max: u64,
}

/// The frequency record after a reading: the reading is the current frequency, and
/// the range grows to hold it. Without an earlier record the range is the reading
/// alone.
pub open spec fn spec_frequency(current: u64, existing: Option<CPUFrequency>) -> CPUFrequency {
    match existing {
        Some(existing) => CPUFrequency {
            current,
            min: if current < existing.min {
                current
            } else {
                existing.min
            },
            max: if current > existing.max {
                current
            } else {
                existing.max
            },
        },
        None => CPUFrequency { current, min: current, max: current },
    }
}

/// Takes a reading of a processor's frequency into the record kept of it.
pub fn get_frequency(current: u64, existing: Option<CPUFrequency>) -> (r: Result<
    CPUFrequency,
    String,
>)
    ensures
        r == Ok::<CPUFrequency, String>(spec_frequency(current, existing)),
{
    Ok(
        match existing {
            Some(existing) => {
                let mut new = CPUFrequency { current, min: existing.min, max: existing.max };
                if current < existing.min {
                    new.min = current;
                }
                if current > existing.max {
                    new.max = current;
                }
                new
            },
            None => CPUFrequency { current, min: current, max: current },
        },
    )
}

/// The frequency of one processor of several, with the number it goes by.
#[derive(Debug, Clone, Copy, PartialEq, Eq, Structural)]
pub struct PerCPUFrequency {
    pub id: i32,
    pub frequency: CPUFrequency,
}

/// The records of the processors, from the reading of each: they are numbered from
/// one, in the order of the readings, and each starts its range at its reading.
pub open spec fn spec_per_cpu(currents: Seq<u64>) -> Seq<PerCPUFrequency> {
    Seq::new(
        currents.len(),
        |i: int|
            PerCPUFrequency { id: (i + 1) as i32, frequency: spec_frequency(currents[i], None) },
    )
}

/// Makes the records of the processors from the reading of each. More processors
/// than can be numbered are an error.
pub fn get_per_cpu(currents: &Vec<u64>) -> (r: Result<Vec<PerCPUFrequency>, String>)
    ensures
        match r {
            Ok(per_cpu) => currents@.len() <= i32::MAX && per_cpu@ == spec_per_cpu(currents@),
            Err(_) => currents@.len() > i32::MAX,
        },
{
    if currents.len() > i32::MAX as usize {
        return Err("Too many processors".to_owned());
    }
    let mut new: Vec<PerCPUFrequency> = Vec::new();
    let mut id: i32 = 0;
    let mut i: usize = 0;
    while i < currents.len()
        invariant
            i <= currents.len(),
            currents.len() <= i32::MAX,
            id == i,
            new@ == spec_per_cpu(currents@.take(i as int)),
        decreases currents.len() - i,
    {
        id = id + 1;
        let frequency = CPUFrequency { current: currents[i], min: currents[i], max: currents[i] };
        new.push(PerCPUFrequency { id, frequency });
        assert(new@ =~= spec_per_cpu(currents@.take(i + 1)));
        i = i + 1;
    }
    proof {
        assert(currents@.take(currents@.len() as int) =~= currents@);
    }
    Ok(new)
}

/// A record that held its reading within its range holds the next reading within its
/// range too, and the range never shrinks.
pub proof fn law_frequency_range_grows(current: u64, existing: CPUFrequency)
    requires
        existing.min <= existing.max,
    ensures
        spec_frequency(current, Some(existing)).min <= current <= spec_frequency(
            current,
            Some(existing),
        ).max,
        spec_frequency(current, Some(existing)).min <= existing.min,
        spec_frequency(current, Some(existing)).max >= existing.max,
{
}

} // verus!
