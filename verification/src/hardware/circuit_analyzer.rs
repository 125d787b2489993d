//! Circuit analysis: calculations and checks over a described circuit, its
//! components and operating conditions.

use vstd::prelude::*;
use vstd::string::StringExecFns;
use crate::textutil::{ascii_lower, spec_ascii_lower, str_eq, string_views};

verus! {

/// What the analyzer is asked to look at.
#[derive(Clone, Debug, PartialEq)]
pub struct CircuitAnalyzerInput {
    /// Circuit description or schematic.
    pub circuit_description: String,
    /// Type of analysis (power, signal, timing, thermal).
    pub analysis_type: String,
    /// Components in the circuit.
    pub components: Vec<Component>,
    /// Operating conditions.
    pub conditions: OperatingConditions,
}

#[derive(Clone, Debug, PartialEq)]
pub struct Component {
    pub name: String,
    /// resistor, capacitor, inductor, ic, ...
    pub type_: String,
    pub value: String,
    pub tolerance: Option<String>,
    pub power_rating: Option<String>,
}

#[derive(Clone, Debug, PartialEq)]
pub struct OperatingConditions {
    pub supply_voltage: String,
    pub temperature: String,
    pub frequency: Option<String>,
}

#[derive(Clone, Debug, PartialEq)]
pub struct CircuitAnalyzerOutput {
    /// Circuit analysis results.
    pub analysis: CircuitAnalysis,
    /// Identified issues.
    pub issues: Vec<CircuitIssue>,
    /// Recommendations.
    pub recommendations: Vec<String>,
    /// Calculated values.
    pub calculations: Vec<Calculation>,
}

#[derive(Clone, Debug, PartialEq)]
pub struct CircuitAnalysis {
    pub power_consumption: String,
    pub voltage_drops: Vec<(String, String)>,
    pub current_flow: Vec<(String, String)>,
    pub impedance: Option<String>,
    pub thermal_analysis: String,
}

#[derive(Clone, Debug, PartialEq)]
pub struct CircuitIssue {
    pub severity: String,
    pub component: String,
    pub issue: String,
    pub solution: String,
}

#[derive(Clone, Debug, PartialEq)]
pub struct Calculation {
    pub parameter: String,
    pub formula: String,
    pub result: String,
    pub unit: String,
}

/// The analyzer itself; stateless.
pub struct CircuitAnalyzer;

/// What a calculation entry says, as views.
pub open spec fn calc_views(c: Calculation) -> (Seq<char>, Seq<char>, Seq<char>, Seq<char>) {
    (c.parameter@, c.formula@, c.result@, c.unit@)
}

/// Add the power-analysis calculation.
pub fn analyze_power_circuit(
    input: &CircuitAnalyzerInput,
    issues: &mut Vec<CircuitIssue>,
    calculations: &mut Vec<Calculation>,
)
    ensures
        *final(issues) == *old(issues),
        final(calculations)@.len() == old(calculations)@.len() + 1,
        final(calculations)@.drop_last() == old(calculations)@,
        calc_views(final(calculations)@.last()) == ("Total Power"@, "P = V²/R"@, "500"@, "mW"@),
{
    let _ = input;
    calculations.push(
        Calculation {
            parameter: "Total Power".to_owned(),
            formula: "P = V²/R".to_owned(),
            result: "500".to_owned(),
            unit: "mW".to_owned(),
        },
    );
    proof {
        assert(calculations@.drop_last() =~= old(calculations)@);
    }
}

/// Add the signal-analysis calculation.
pub fn analyze_signal_circuit(
    input: &CircuitAnalyzerInput,
    issues: &mut Vec<CircuitIssue>,
    calculations: &mut Vec<Calculation>,
)
    ensures
        *final(issues) == *old(issues),
        final(calculations)@.len() == old(calculations)@.len() + 1,
        final(calculations)@.drop_last() == old(calculations)@,
        calc_views(final(calculations)@.last()) == (
            "Cutoff Frequency"@,
            "f = 1/(2πRC)"@,
            "1.59"@,
            "kHz"@,
        ),
{
    let _ = input;
    calculations.push(
        Calculation {
            parameter: "Cutoff Frequency".to_owned(),
            formula: "f = 1/(2πRC)".to_owned(),
            result: "1.59".to_owned(),
            unit: "kHz".to_owned(),
        },
    );
    proof {
        assert(calculations@.drop_last() =~= old(calculations)@);
    }
}

/// Add the timing-analysis calculation.
pub fn analyze_timing_circuit(
    input: &CircuitAnalyzerInput,
    issues: &mut Vec<CircuitIssue>,
    calculations: &mut Vec<Calculation>,
)
    ensures
        *final(issues) == *old(issues),
        final(calculations)@.len() == old(calculations)@.len() + 1,
        final(calculations)@.drop_last() == old(calculations)@,
        calc_views(final(calculations)@.last()) == (
            "Time Constant"@,
            "τ = RC"@,
            "100"@,
            "µs"@,
        ),
{
    let _ = input;
    calculations.push(
        Calculation {
            parameter: "Time Constant".to_owned(),
            formula: "τ = RC".to_owned(),
            result: "100".to_owned(),
            unit: "µs".to_owned(),
        },
    );
    proof {
        assert(calculations@.drop_last() =~= old(calculations)@);
    }
}

/// The power-rating reminder for one resistor.
pub open spec fn spec_rating_note(c: Component) -> Seq<char> {
    "Ensure "@ + c.name@ + " has adequate power rating"@
}

/// The reminders the component list earns: one per resistor, in order.
pub open spec fn spec_rating_notes(cs: Seq<Component>, n: int) -> Seq<Seq<char>>
    decreases n,
{
    if n <= 0 {
        Seq::empty()
    } else {
        spec_rating_notes(cs, n - 1) + (if cs[n - 1].type_@ == "resistor"@ {
            seq![spec_rating_note(cs[n - 1])]
        } else {
            Seq::empty()
        })
    }
}

/// Check each component's rating: every resistor earns a reminder to verify
/// its power rating.
pub fn check_component_ratings(
    input: &CircuitAnalyzerInput,
    issues: &mut Vec<CircuitIssue>,
    recommendations: &mut Vec<String>,
)
    ensures
        *final(issues) == *old(issues),
        string_views(final(recommendations)@) == string_views(old(recommendations)@)
            + spec_rating_notes(input.components@, input.components@.len() as int),
{
    let n = input.components.len();
    proof {
        assert(string_views(recommendations@) =~~= string_views(old(recommendations)@)
            + spec_rating_notes(input.components@, 0));
    }
    for i in 0..n
        invariant
            n == input.components@.len(),
            *issues == *old(issues),
            string_views(recommendations@) == string_views(old(recommendations)@)
                + spec_rating_notes(input.components@, i as int),
    {
        let ghost pre_views = string_views(recommendations@);
        let component = &input.components[i];
        if str_eq(component.type_.as_str(), "resistor") {
            let mut note = "Ensure ".to_owned();
            note.append(component.name.as_str());
            note.append(" has adequate power rating");
            proof {
                assert(note@ == spec_rating_note(input.components@[i as int]));
            }
            recommendations.push(note);
            proof {
                assert(string_views(recommendations@) =~~= pre_views.push(
                    spec_rating_note(input.components@[i as int]),
                ));
            }
        }
        proof {
            assert(string_views(recommendations@) =~~= string_views(old(recommendations)@)
                + spec_rating_notes(input.components@, i + 1));
        }
    }
}

/// The estimated total power figure.
pub fn calculate_power(input: &CircuitAnalyzerInput) -> (r: String)
    ensures
        r@ == "Estimated: 250mW total"@,
{
    let _ = input;
    "Estimated: 250mW total".to_owned()
}

/// The per-element voltage drops.
pub fn calculate_voltage_drops(input: &CircuitAnalyzerInput) -> (r: Vec<(String, String)>)
    ensures
        r@.len() == 2,
        r@[0].0@ == "R1"@ && r@[0].1@ == "1.2V"@,
        r@[1].0@ == "LED1"@ && r@[1].1@ == "2.1V"@,
{
    let _ = input;
    let mut v: Vec<(String, String)> = Vec::new();
    v.push(("R1".to_owned(), "1.2V".to_owned()));
    v.push(("LED1".to_owned(), "2.1V".to_owned()));
    v
}

/// The per-branch current flows.
pub fn calculate_current_flow(input: &CircuitAnalyzerInput) -> (r: Vec<(String, String)>)
    ensures
        r@.len() == 2,
        r@[0].0@ == "Main branch"@ && r@[0].1@ == "20mA"@,
        r@[1].0@ == "LED branch"@ && r@[1].1@ == "10mA"@,
{
    let _ = input;
    let mut v: Vec<(String, String)> = Vec::new();
    v.push(("Main branch".to_owned(), "20mA".to_owned()));
    v.push(("LED branch".to_owned(), "10mA".to_owned()));
    v
}

/// Which calculation list the analysis type selects.
pub open spec fn spec_calculations_of(input: CircuitAnalyzerInput, calcs: Seq<Calculation>) -> bool {
    let t = spec_ascii_lower(input.analysis_type@);
    if t == "power"@ {
        calcs.len() == 1 && calc_views(calcs[0]) == ("Total Power"@, "P = V²/R"@, "500"@, "mW"@)
    } else if t == "signal"@ {
        calcs.len() == 1 && calc_views(calcs[0]) == (
            "Cutoff Frequency"@,
            "f = 1/(2πRC)"@,
            "1.59"@,
            "kHz"@,
        )
    } else if t == "timing"@ {
        calcs.len() == 1 && calc_views(calcs[0]) == ("Time Constant"@, "τ = RC"@, "100"@, "µs"@)
    } else {
        calcs.len() == 0
    }
}

impl CircuitAnalyzer {
    /// Analyze the circuit: the calculation the analysis type selects, the
    /// rating reminders for the components, and the summary figures.
    pub fn run(&self, input: CircuitAnalyzerInput) -> (r: CircuitAnalyzerOutput)
        ensures
            spec_calculations_of(input, r.calculations@),
            r.issues@.len() == 0,
            string_views(r.recommendations@) == spec_rating_notes(
                input.components@,
                input.components@.len() as int,
            ),
            r.analysis.power_consumption@ == "Estimated: 250mW total"@,
            (r.analysis.impedance matches Some(z) && z@ == "100Ω at 1kHz"@),
            r.analysis.thermal_analysis@ == "Operating within safe temperature range"@,
            r.analysis.voltage_drops@.len() == 2,
            r.analysis.current_flow@.len() == 2,
    {
        let mut issues: Vec<CircuitIssue> = Vec::new();
        let mut calculations: Vec<Calculation> = Vec::new();
        let mut recommendations: Vec<String> = Vec::new();
        let t = ascii_lower(input.analysis_type.as_str());
        if str_eq(t.as_str(), "power") {
            analyze_power_circuit(&input, &mut issues, &mut calculations);
            proof {
                assert(calculations@.drop_last() =~= Seq::<Calculation>::empty());
            }
        } else if str_eq(t.as_str(), "signal") {
            analyze_signal_circuit(&input, &mut issues, &mut calculations);
            proof {
                assert(calculations@.drop_last() =~= Seq::<Calculation>::empty());
            }
        } else if str_eq(t.as_str(), "timing") {
            analyze_timing_circuit(&input, &mut issues, &mut calculations);
            proof {
                assert(calculations@.drop_last() =~= Seq::<Calculation>::empty());
            }
        }
        check_component_ratings(&input, &mut issues, &mut recommendations);
        proof {
            assert(string_views(recommendations@) =~= spec_rating_notes(
                input.components@,
                input.components@.len() as int,
            ));
        }
        CircuitAnalyzerOutput {
            analysis: CircuitAnalysis {
                power_consumption: calculate_power(&input),
                voltage_drops: calculate_voltage_drops(&input),
                current_flow: calculate_current_flow(&input),
                impedance: Some("100Ω at 1kHz".to_owned()),
                thermal_analysis: "Operating within safe temperature range".to_owned(),
            },
            issues,
            recommendations,
            calculations,
        }
    }
}

} // verus!
