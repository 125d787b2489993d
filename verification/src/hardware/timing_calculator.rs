//! Timing calculation: summarises a prescaler/divider calculation request
//! for hardware peripherals such as UART, timers and PWM.

use vstd::prelude::*;
use vstd::string::StringExecFns;
use crate::claims::Capability;
use crate::textutil::{spec_decimal, u64_to_string};
use crate::tools::ToolResult;

verus! {

/// What the calculator is asked to work out.
#[derive(Clone, Debug, PartialEq)]
pub struct TimingCalculatorArgs {
    /// Calculation type (baud-rate, i2c-timing, spi-clock, pwm, timer).
    pub calc_type: String,
    /// Input frequency or clock, in Hz.
    pub clock_freq: u32,
    /// Desired output or target value.
    pub target: u32,
    /// Additional constraints, if any.
    pub constraints: Option<String>,
}

/// The calculator itself; stateless.
pub struct TimingCalculator;

/// The report the calculator produces for a request.
pub open spec fn spec_timing_report(args: TimingCalculatorArgs) -> Seq<char> {
    "## Timing Calculation\n\n### Type: "@ + args.calc_type@ + "\n### Clock: "@ + spec_decimal(
        args.clock_freq as nat,
    ) + " Hz\n### Target: "@ + spec_decimal(args.target as nat)
        + "\n\nThis tool calculates:\n- Prescaler and divider values\n- Actual vs desired frequencies\n- Timing accuracy and errors\n- Register configuration values\n"@
}

impl TimingCalculator {
    pub fn new() -> (r: TimingCalculator) {
        TimingCalculator
    }

    /// The capability the calculator declares: it only reads.
    pub fn capabilities(&self) -> (r: Vec<Capability>)
        ensures
            r@ == seq![Capability::Read],
    {
        let mut v: Vec<Capability> = Vec::new();
        v.push(Capability::Read);
        proof {
            assert(v@ =~= seq![Capability::Read]);
        }
        v
    }

    /// Run the calculator: assemble the report for the request.
    pub fn execute(&self, args: TimingCalculatorArgs) -> (r: ToolResult)
        ensures
            (r matches ToolResult::Success { output } && output@ == spec_timing_report(args)),
    {
        let mut calculation = "## Timing Calculation\n\n### Type: ".to_owned();
        calculation.append(args.calc_type.as_str());
        calculation.append("\n### Clock: ");
        let clock = u64_to_string(args.clock_freq as u64);
        calculation.append(clock.as_str());
        calculation.append(" Hz\n### Target: ");
        let target = u64_to_string(args.target as u64);
        calculation.append(target.as_str());
        calculation.append(
            "\n\nThis tool calculates:\n- Prescaler and divider values\n- Actual vs desired frequencies\n- Timing accuracy and errors\n- Register configuration values\n",
        );
        proof {
            assert(calculation@ =~= spec_timing_report(args));
        }
        ToolResult::Success { output: calculation }
    }

    /// The tool's registered name.
    pub fn name(&self) -> (r: &'static str)
        ensures
            r@ == "timing_calculator"@,
    {
        "timing_calculator"
    }

    /// The tool's one-line description.
    pub fn description(&self) -> (r: &'static str)
        ensures
            r@
                == "Calculate timing parameters, prescalers, and dividers for hardware peripherals like UART, timers, PWM, and clocks."@,
    {
        "Calculate timing parameters, prescalers, and dividers for hardware peripherals like UART, timers, PWM, and clocks."
    }
}

} // verus!
