//! Pin mapping: assigns microcontroller pins to peripherals, generates pin
//! configuration code for a platform, detects conflicting assignments, and
//! lists the pins still free.

use vstd::prelude::*;
use vstd::string::StringExecFns;
use crate::textutil::{
    ascii_lower, ascii_upper, contains_string, spec_ascii_lower, spec_ascii_upper, spec_decimal,
    str_eq, string_views, usize_to_string,
};

verus! {

/// What the mapper is asked to lay out.
#[derive(Clone, Debug, PartialEq)]
pub struct PinoutMapperInput {
    /// Microcontroller or board type.
    pub board: String,
    /// The peripherals to configure.
    pub peripherals: Vec<Peripheral>,
    /// Generate code for this platform/framework.
    pub platform: String,
}

#[derive(Clone, Debug, PartialEq)]
pub struct Peripheral {
    pub name: String,
    /// i2c, spi, uart, gpio, pwm, adc, ...
    pub type_: String,
    pub pins: Vec<PinAssignment>,
}

#[derive(Clone, Debug, PartialEq)]
pub struct PinAssignment {
    /// SDA, SCL, MOSI, MISO, TX, RX, ...
    pub function: String,
    /// Physical pin number or name.
    pub pin: String,
}

#[derive(Clone, Debug, PartialEq)]
pub struct PinoutMapperOutput {
    /// Pin mapping visualization.
    pub pinout_diagram: String,
    /// Configuration code.
    pub config_code: String,
    /// Pin conflicts detected.
    pub conflicts: Vec<PinConflict>,
    /// Available pins.
    pub available_pins: Vec<String>,
    /// Pin usage summary.
    pub usage_summary: PinUsageSummary,
}

#[derive(Clone, Debug, PartialEq)]
pub struct PinConflict {
    pub pin: String,
    pub conflict: String,
    pub resolution: String,
}

#[derive(Clone, Debug, PartialEq)]
pub struct PinUsageSummary {
    pub total_pins: u32,
    pub used_pins: u32,
    pub gpio_available: u32,
    pub special_functions: Vec<String>,
}

/// The helper that assembles everything.
pub struct PinoutMapper;

/// All pin names of all peripherals, flattened in declaration order.
pub open spec fn spec_flat_pins(ps: Seq<Peripheral>) -> Seq<Seq<char>>
    decreases ps.len(),
{
    if ps.len() == 0 {
        Seq::empty()
    } else {
        spec_flat_pins(ps.drop_last()) + string_views(
            ps.last().pins@.map(|i: int, p: PinAssignment| p.pin),
        )
    }
}

/// The first occurrence of each pin name, in order.
pub open spec fn spec_unique_pins(pins: Seq<Seq<char>>) -> Seq<Seq<char>>
    decreases pins.len(),
{
    if pins.len() == 0 {
        Seq::empty()
    } else {
        let pre = spec_unique_pins(pins.drop_last());
        if pre.contains(pins.last()) {
            pre
        } else {
            pre.push(pins.last())
        }
    }
}

/// Every later occurrence of an already-used pin name, in order.
pub open spec fn spec_conflict_pins(pins: Seq<Seq<char>>) -> Seq<Seq<char>>
    decreases pins.len(),
{
    if pins.len() == 0 {
        Seq::empty()
    } else {
        let pre = spec_conflict_pins(pins.drop_last());
        if spec_unique_pins(pins.drop_last()).contains(pins.last()) {
            pre.push(pins.last())
        } else {
            pre
        }
    }
}

/// What correct conflict reports look like: one entry per repeated
/// assignment, in order, each with the fixed diagnosis and remedy.
pub open spec fn conflicts_correct(conflicts: Seq<PinConflict>, ps: Seq<Peripheral>) -> bool {
    &&& conflicts.map(|i: int, c: PinConflict| c.pin@) == spec_conflict_pins(spec_flat_pins(ps))
    &&& forall|i: int|
        0 <= i < conflicts.len() ==> (#[trigger] conflicts[i]).conflict@
            == "Pin already used by another peripheral"@ && conflicts[i].resolution@
            == "Choose alternative pin or use multiplexing"@
}

/// The name of a general-purpose pin.
pub open spec fn spec_gp_name(i: nat) -> Seq<char> {
    "GP"@ + spec_decimal(i)
}

/// The general-purpose pins up to `n` that no used pin name claims.
pub open spec fn spec_available_pins(used: Seq<Seq<char>>, n: nat) -> Seq<Seq<char>>
    decreases n,
{
    if n == 0 {
        Seq::empty()
    } else {
        spec_available_pins(used, (n - 1) as nat) + (if used.contains(spec_gp_name((n - 1) as nat)) {
            Seq::empty()
        } else {
            seq![spec_gp_name((n - 1) as nat)]
        })
    }
}

/// The board's pin count the mapper assumes.
pub open spec fn board_pin_count() -> nat {
    40
}

/// The pins of the board not claimed by a used pin name.
pub fn get_available_pins(board: &str, used_pins: &Vec<String>) -> (r: Vec<String>)
    ensures
        string_views(r@) == spec_available_pins(string_views(used_pins@), board_pin_count()),
{
    let _ = board;
    let mut out: Vec<String> = Vec::new();
    for i in 0..40usize
        invariant
            string_views(out@) == spec_available_pins(string_views(used_pins@), i as nat),
    {
        let mut name = "GP".to_owned();
        let d = usize_to_string(i);
        name.append(d.as_str());
        proof {
            assert(name@ == spec_gp_name(i as nat));
        }
        if !contains_string(used_pins, name.as_str()) {
            out.push(name);
            proof {
                assert(string_views(out@) =~= spec_available_pins(
                    string_views(used_pins@),
                    (i + 1) as nat,
                ));
            }
        } else {
            proof {
                assert(string_views(out@) =~= spec_available_pins(
                    string_views(used_pins@),
                    (i + 1) as nat,
                ));
            }
        }
    }
    out
}

/// One `#define`-style block for a peripheral on the Arduino platform.
pub open spec fn spec_arduino_defines(p: Peripheral) -> Seq<char>
    decreases p.pins@.len(),
{
    spec_arduino_defines_up_to(p, p.pins@.len() as int)
}

pub open spec fn spec_arduino_defines_up_to(p: Peripheral, n: int) -> Seq<char>
    decreases n,
{
    if n <= 0 {
        Seq::empty()
    } else {
        spec_arduino_defines_up_to(p, n - 1) + "#define "@ + spec_ascii_upper(p.name@) + "_"@
            + spec_ascii_upper(p.pins@[n - 1].function@) + " "@ + p.pins@[n - 1].pin@ + "\n"@
    }
}

fn arduino_defines(p: &Peripheral) -> (r: String)
    ensures
        r@ == spec_arduino_defines(*p),
{
    let mut out = String::new();
    let upper_name = ascii_upper(p.name.as_str());
    let n = p.pins.len();
    for i in 0..n
        invariant
            n == p.pins@.len(),
            upper_name@ == spec_ascii_upper(p.name@),
            out@ == spec_arduino_defines_up_to(*p, i as int),
    {
        out.append("#define ");
        out.append(upper_name.as_str());
        out.append("_");
        let f = ascii_upper(p.pins[i].function.as_str());
        out.append(f.as_str());
        out.append(" ");
        out.append(p.pins[i].pin.as_str());
        out.append("\n");
        proof {
            assert(out@ =~= spec_arduino_defines_up_to(*p, i + 1));
        }
    }
    out
}

/// The Arduino `setup()` body line(s) one peripheral contributes.
pub open spec fn spec_arduino_setup_of(p: Peripheral) -> Seq<char> {
    if p.type_@ == "gpio"@ {
        spec_gpio_setup_up_to(p, p.pins@.len() as int)
    } else if p.type_@ == "i2c"@ {
        "  Wire.begin();\n"@
    } else if p.type_@ == "spi"@ {
        "  SPI.begin();\n"@
    } else {
        Seq::empty()
    }
}

pub open spec fn spec_gpio_setup_up_to(p: Peripheral, n: int) -> Seq<char>
    decreases n,
{
    if n <= 0 {
        Seq::empty()
    } else {
        spec_gpio_setup_up_to(p, n - 1) + "  pinMode("@ + p.pins@[n - 1].pin@ + ", OUTPUT);\n"@
    }
}

fn arduino_setup_of(p: &Peripheral) -> (r: String)
    ensures
        r@ == spec_arduino_setup_of(*p),
{
    if str_eq(p.type_.as_str(), "gpio") {
        let mut out = String::new();
        let n = p.pins.len();
        for i in 0..n
            invariant
                n == p.pins@.len(),
                out@ == spec_gpio_setup_up_to(*p, i as int),
        {
            out.append("  pinMode(");
            out.append(p.pins[i].pin.as_str());
            out.append(", OUTPUT);\n");
            proof {
                assert(out@ =~= spec_gpio_setup_up_to(*p, i + 1));
            }
        }
        out
    } else if str_eq(p.type_.as_str(), "i2c") {
        "  Wire.begin();\n".to_owned()
    } else if str_eq(p.type_.as_str(), "spi") {
        "  SPI.begin();\n".to_owned()
    } else {
        String::new()
    }
}

/// The STM32 block for one peripheral.
pub open spec fn spec_stm32_defines(p: Peripheral) -> Seq<char> {
    spec_stm32_defines_up_to(p, p.pins@.len() as int)
}

pub open spec fn spec_stm32_defines_up_to(p: Peripheral, n: int) -> Seq<char>
    decreases n,
{
    if n <= 0 {
        Seq::empty()
    } else {
        spec_stm32_defines_up_to(p, n - 1) + "#define "@ + spec_ascii_upper(p.name@) + "_"@
            + spec_ascii_upper(p.pins@[n - 1].function@) + "_PIN GPIO_PIN_"@ + p.pins@[n
            - 1].pin@ + "\n"@ + "#define "@ + spec_ascii_upper(p.name@) + "_"@ + spec_ascii_upper(
            p.pins@[n - 1].function@,
        ) + "_PORT GPIOA\n"@
    }
}

fn stm32_defines(p: &Peripheral) -> (r: String)
    ensures
        r@ == spec_stm32_defines(*p),
{
    let mut out = String::new();
    let upper_name = ascii_upper(p.name.as_str());
    let n = p.pins.len();
    for i in 0..n
        invariant
            n == p.pins@.len(),
            upper_name@ == spec_ascii_upper(p.name@),
            out@ == spec_stm32_defines_up_to(*p, i as int),
    {
        let f = ascii_upper(p.pins[i].function.as_str());
        out.append("#define ");
        out.append(upper_name.as_str());
        out.append("_");
        out.append(f.as_str());
        out.append("_PIN GPIO_PIN_");
        out.append(p.pins[i].pin.as_str());
        out.append("\n");
        out.append("#define ");
        out.append(upper_name.as_str());
        out.append("_");
        out.append(f.as_str());
        out.append("_PORT GPIOA\n");
        proof {
            assert(out@ =~= spec_stm32_defines_up_to(*p, i + 1));
        }
    }
    out
}

/// The ESP32 block for one peripheral.
pub open spec fn spec_esp32_defines(p: Peripheral) -> Seq<char> {
    spec_esp32_defines_up_to(p, p.pins@.len() as int)
}

pub open spec fn spec_esp32_defines_up_to(p: Peripheral, n: int) -> Seq<char>
    decreases n,
{
    if n <= 0 {
        Seq::empty()
    } else {
        spec_esp32_defines_up_to(p, n - 1) + "const int "@ + spec_ascii_lower(p.name@) + "_"@
            + spec_ascii_lower(p.pins@[n - 1].function@) + " = "@ + p.pins@[n - 1].pin@ + ";\n"@
    }
}

fn esp32_defines(p: &Peripheral) -> (r: String)
    ensures
        r@ == spec_esp32_defines(*p),
{
    let mut out = String::new();
    let lower_name = ascii_lower(p.name.as_str());
    let n = p.pins.len();
    for i in 0..n
        invariant
            n == p.pins@.len(),
            lower_name@ == spec_ascii_lower(p.name@),
            out@ == spec_esp32_defines_up_to(*p, i as int),
    {
        let f = ascii_lower(p.pins[i].function.as_str());
        out.append("const int ");
        out.append(lower_name.as_str());
        out.append("_");
        out.append(f.as_str());
        out.append(" = ");
        out.append(p.pins[i].pin.as_str());
        out.append(";\n");
        proof {
            assert(out@ =~= spec_esp32_defines_up_to(*p, i + 1));
        }
    }
    out
}

/// The fallback block for one peripheral.
pub open spec fn spec_generic_lines(p: Peripheral) -> Seq<char> {
    spec_generic_lines_up_to(p, p.pins@.len() as int)
}

pub open spec fn spec_generic_lines_up_to(p: Peripheral, n: int) -> Seq<char>
    decreases n,
{
    if n <= 0 {
        Seq::empty()
    } else {
        spec_generic_lines_up_to(p, n - 1) + p.name@ + "."@ + p.pins@[n - 1].function@ + " = Pin "@
            + p.pins@[n - 1].pin@ + "\n"@
    }
}

fn generic_lines(p: &Peripheral) -> (r: String)
    ensures
        r@ == spec_generic_lines(*p),
{
    let mut out = String::new();
    let n = p.pins.len();
    for i in 0..n
        invariant
            n == p.pins@.len(),
            out@ == spec_generic_lines_up_to(*p, i as int),
    {
        out.append(p.name.as_str());
        out.append(".");
        out.append(p.pins[i].function.as_str());
        out.append(" = Pin ");
        out.append(p.pins[i].pin.as_str());
        out.append("\n");
        proof {
            assert(out@ =~= spec_generic_lines_up_to(*p, i + 1));
        }
    }
    out
}

/// The configuration code for the requested platform, one block per
/// peripheral, with the Arduino variant also assembling a `setup()`.
pub open spec fn spec_config_code(input: PinoutMapperInput) -> Seq<char> {
    let platform = spec_ascii_lower(input.platform@);
    let ps = input.peripherals@;
    if platform == "arduino"@ {
        "// Pin Configuration for Arduino\n\n"@ + spec_arduino_blocks(ps, ps.len() as int)
            + "void setup() {\n"@ + spec_arduino_setups(ps, ps.len() as int) + "}\n"@
    } else if platform == "stm32"@ {
        "/* Pin Configuration for STM32 */\n\n"@ + spec_stm32_blocks(ps, ps.len() as int)
    } else if platform == "esp32"@ {
        "// Pin Configuration for ESP32\n\n"@ + spec_esp32_blocks(ps, ps.len() as int)
    } else {
        "// Generic Pin Configuration\n"@ + spec_generic_blocks(ps, ps.len() as int)
    }
}

pub open spec fn spec_arduino_blocks(ps: Seq<Peripheral>, n: int) -> Seq<char>
    decreases n,
{
    if n <= 0 {
        Seq::empty()
    } else {
        spec_arduino_blocks(ps, n - 1) + "// "@ + ps[n - 1].name@ + " Configuration\n"@
            + spec_arduino_defines(ps[n - 1]) + "\n"@
    }
}

pub open spec fn spec_arduino_setups(ps: Seq<Peripheral>, n: int) -> Seq<char>
    decreases n,
{
    if n <= 0 {
        Seq::empty()
    } else {
        spec_arduino_setups(ps, n - 1) + spec_arduino_setup_of(ps[n - 1])
    }
}

pub open spec fn spec_stm32_blocks(ps: Seq<Peripheral>, n: int) -> Seq<char>
    decreases n,
{
    if n <= 0 {
        Seq::empty()
    } else {
        spec_stm32_blocks(ps, n - 1) + "/* "@ + ps[n - 1].name@ + " Configuration */\n"@
            + spec_stm32_defines(ps[n - 1]) + "\n"@
    }
}

pub open spec fn spec_esp32_blocks(ps: Seq<Peripheral>, n: int) -> Seq<char>
    decreases n,
{
    if n <= 0 {
        Seq::empty()
    } else {
        spec_esp32_blocks(ps, n - 1) + "// "@ + ps[n - 1].name@ + " Pins\n"@ + spec_esp32_defines(
            ps[n - 1],
        ) + "\n"@
    }
}

pub open spec fn spec_generic_blocks(ps: Seq<Peripheral>, n: int) -> Seq<char>
    decreases n,
{
    if n <= 0 {
        Seq::empty()
    } else {
        spec_generic_blocks(ps, n - 1) + spec_generic_lines(ps[n - 1])
    }
}

/// Build the configuration code for the requested platform.
pub fn generate_config_code(input: &PinoutMapperInput) -> (r: String)
    ensures
        r@ == spec_config_code(*input),
{
    let platform = ascii_lower(input.platform.as_str());
    let ps = &input.peripherals;
    let n = ps.len();
    let mut code: String;
    if str_eq(platform.as_str(), "arduino") {
        code = "// Pin Configuration for Arduino\n\n".to_owned();
        for i in 0..n
            invariant
                n == ps@.len(),
                code@ == "// Pin Configuration for Arduino\n\n"@ + spec_arduino_blocks(
                    ps@,
                    i as int,
                ),
        {
            code.append("// ");
            code.append(ps[i].name.as_str());
            code.append(" Configuration\n");
            let defines = arduino_defines(&ps[i]);
            code.append(defines.as_str());
            code.append("\n");
            proof {
                assert(code@ =~= "// Pin Configuration for Arduino\n\n"@ + spec_arduino_blocks(
                    ps@,
                    i + 1,
                ));
            }
        }
        code.append("void setup() {\n");
        let ghost prefix = code@;
        for i in 0..n
            invariant
                n == ps@.len(),
                code@ == prefix + spec_arduino_setups(ps@, i as int),
        {
            let setup = arduino_setup_of(&ps[i]);
            code.append(setup.as_str());
            proof {
                assert(code@ =~= prefix + spec_arduino_setups(ps@, i + 1));
            }
        }
        code.append("}\n");
        proof {
            assert(code@ =~= spec_config_code(*input));
        }
    } else if str_eq(platform.as_str(), "stm32") {
        code = "/* Pin Configuration for STM32 */\n\n".to_owned();
        for i in 0..n
            invariant
                n == ps@.len(),
                code@ == "/* Pin Configuration for STM32 */\n\n"@ + spec_stm32_blocks(
                    ps@,
                    i as int,
                ),
        {
            code.append("/* ");
            code.append(ps[i].name.as_str());
            code.append(" Configuration */\n");
            let defines = stm32_defines(&ps[i]);
            code.append(defines.as_str());
            code.append("\n");
            proof {
                assert(code@ =~= "/* Pin Configuration for STM32 */\n\n"@ + spec_stm32_blocks(
                    ps@,
                    i + 1,
                ));
            }
        }
        proof {
            assert(code@ =~= spec_config_code(*input));
        }
    } else if str_eq(platform.as_str(), "esp32") {
        code = "// Pin Configuration for ESP32\n\n".to_owned();
        for i in 0..n
            invariant
                n == ps@.len(),
                code@ == "// Pin Configuration for ESP32\n\n"@ + spec_esp32_blocks(ps@, i as int),
        {
            code.append("// ");
            code.append(ps[i].name.as_str());
            code.append(" Pins\n");
            let defines = esp32_defines(&ps[i]);
            code.append(defines.as_str());
            code.append("\n");
            proof {
                assert(code@ =~= "// Pin Configuration for ESP32\n\n"@ + spec_esp32_blocks(
                    ps@,
                    i + 1,
                ));
            }
        }
        proof {
            assert(code@ =~= spec_config_code(*input));
        }
    } else {
        code = "// Generic Pin Configuration\n".to_owned();
        for i in 0..n
            invariant
                n == ps@.len(),
                code@ == "// Generic Pin Configuration\n"@ + spec_generic_blocks(ps@, i as int),
        {
            let lines = generic_lines(&ps[i]);
            code.append(lines.as_str());
            proof {
                assert(code@ =~= "// Generic Pin Configuration\n"@ + spec_generic_blocks(
                    ps@,
                    i + 1,
                ));
            }
        }
        proof {
            assert(code@ =~= spec_config_code(*input));
        }
    }
    code
}

/// The diagram: a fixed header, one row per assignment, a fixed footer and a
/// legend naming each peripheral.
pub open spec fn spec_pinout_diagram(input: PinoutMapperInput) -> Seq<char> {
    let ps = input.peripherals@;
    "\n"@ + input.board@ + " Pinout Map\n"@
        + "═══════════════════════════════\n\n"@
        + "       ┌─────────────┐\n"@ + "    3V3│ 1       40 │VBUS\n"@
        + "     GP0│ 2       39 │VSYS\n"@ + "     GP1│ 3       38 │GND\n"@ + spec_diagram_rows(
        ps,
        ps.len() as int,
    ) + "       └─────────────┘\n\n"@ + "Legend:\n"@ + spec_legend(ps, ps.len() as int)
}

pub open spec fn spec_diagram_rows(ps: Seq<Peripheral>, n: int) -> Seq<char>
    decreases n,
{
    if n <= 0 {
        Seq::empty()
    } else {
        spec_diagram_rows(ps, n - 1) + spec_diagram_rows_of(ps[n - 1], ps[n - 1].pins@.len() as int)
    }
}

pub open spec fn spec_diagram_rows_of(p: Peripheral, n: int) -> Seq<char>
    decreases n,
{
    if n <= 0 {
        Seq::empty()
    } else {
        spec_diagram_rows_of(p, n - 1) + "  "@ + p.pins@[n - 1].function@ + "("@ + p.pins@[n
            - 1].pin@ + ")│         │\n"@
    }
}

pub open spec fn spec_legend(ps: Seq<Peripheral>, n: int) -> Seq<char>
    decreases n,
{
    if n <= 0 {
        Seq::empty()
    } else {
        spec_legend(ps, n - 1) + "  "@ + ps[n - 1].name@ + " - "@ + ps[n - 1].type_@ + "\n"@
    }
}

fn diagram_rows_of(p: &Peripheral) -> (r: String)
    ensures
        r@ == spec_diagram_rows_of(*p, p.pins@.len() as int),
{
    let mut out = String::new();
    let n = p.pins.len();
    for i in 0..n
        invariant
            n == p.pins@.len(),
            out@ == spec_diagram_rows_of(*p, i as int),
    {
        out.append("  ");
        out.append(p.pins[i].function.as_str());
        out.append("(");
        out.append(p.pins[i].pin.as_str());
        out.append(")│         │\n");
        proof {
            assert(out@ =~= spec_diagram_rows_of(*p, i + 1));
        }
    }
    out
}

/// Build the diagram.
pub fn generate_pinout_diagram(input: &PinoutMapperInput) -> (r: String)
    ensures
        r@ == spec_pinout_diagram(*input),
{
    let ps = &input.peripherals;
    let n = ps.len();
    let mut diagram = "\n".to_owned();
    diagram.append(input.board.as_str());
    diagram.append(" Pinout Map\n");
    diagram.append("═══════════════════════════════\n\n");
    diagram.append("       ┌─────────────┐\n");
    diagram.append("    3V3│ 1       40 │VBUS\n");
    diagram.append("     GP0│ 2       39 │VSYS\n");
    diagram.append("     GP1│ 3       38 │GND\n");
    let ghost prefix = diagram@;
    for i in 0..n
        invariant
            n == ps@.len(),
            diagram@ == prefix + spec_diagram_rows(ps@, i as int),
    {
        let rows = diagram_rows_of(&ps[i]);
        diagram.append(rows.as_str());
        proof {
            assert(diagram@ =~= prefix + spec_diagram_rows(ps@, i + 1));
        }
    }
    diagram.append("       └─────────────┘\n\n");
    diagram.append("Legend:\n");
    let ghost prefix2 = diagram@;
    for i in 0..n
        invariant
            n == ps@.len(),
            diagram@ == prefix2 + spec_legend(ps@, i as int),
    {
        diagram.append("  ");
        diagram.append(ps[i].name.as_str());
        diagram.append(" - ");
        diagram.append(ps[i].type_.as_str());
        diagram.append("\n");
        proof {
            assert(diagram@ =~= prefix2 + spec_legend(ps@, i + 1));
        }
    }
    proof {
        assert(diagram@ =~= spec_pinout_diagram(*input));
    }
    diagram
}

impl PinoutMapper {
    /// Lay the peripherals out: detect conflicting pin assignments in
    /// declaration order, generate the code and diagram, and report the pins
    /// still free together with a usage summary.
    pub fn run(&self, input: PinoutMapperInput) -> (r: PinoutMapperOutput)
        ensures
            conflicts_correct(r.conflicts@, input.peripherals@),
            r.config_code@ == spec_config_code(input),
            r.pinout_diagram@ == spec_pinout_diagram(input),
            string_views(r.available_pins@) == spec_available_pins(
                spec_unique_pins(spec_flat_pins(input.peripherals@)),
                board_pin_count(),
            ),
            r.usage_summary.total_pins == 40u32,
            r.usage_summary.used_pins as nat == (
            if spec_unique_pins(spec_flat_pins(input.peripherals@)).len() >= u32::MAX as nat {
                u32::MAX as nat
            } else {
                spec_unique_pins(spec_flat_pins(input.peripherals@)).len()
            }),
            r.usage_summary.gpio_available == 20u32,
            string_views(r.usage_summary.special_functions@) == seq![
                "I2C0"@,
                "SPI0"@,
                "UART1"@,
                "PWM0-3"@,
            ],
    {
        let mut conflicts: Vec<PinConflict> = Vec::new();
        let mut used_pins: Vec<String> = Vec::new();
        let n = input.peripherals.len();
        proof {
            assert(input.peripherals@.subrange(0, 0) =~= Seq::<Peripheral>::empty());
            assert(string_views(used_pins@) =~= spec_unique_pins(
                spec_flat_pins(input.peripherals@.subrange(0, 0)),
            ));
            assert(conflicts@.map(|k: int, c: PinConflict| c.pin@) =~= spec_conflict_pins(
                spec_flat_pins(input.peripherals@.subrange(0, 0)),
            ));
        }
        for i in 0..n
            invariant
                n == input.peripherals@.len(),
                string_views(used_pins@) == spec_unique_pins(
                    spec_flat_pins(input.peripherals@.subrange(0, i as int)),
                ),
                conflicts_correct(conflicts@, input.peripherals@.subrange(0, i as int)),
        {
            let p = &input.peripherals[i];
            let m = p.pins.len();
            proof {
                assert(input.peripherals@.subrange(0, i + 1).drop_last()
                    =~= input.peripherals@.subrange(0, i as int));
                assert(input.peripherals@.subrange(0, i + 1).last()
                    == input.peripherals@[i as int]);
            }
            for j in 0..m
                invariant
                    m == p.pins@.len(),
                    p == &input.peripherals@[i as int],
                    i < n == input.peripherals@.len(),
                    string_views(used_pins@) == spec_unique_pins(
                        spec_flat_pins(input.peripherals@.subrange(0, i as int))
                            + string_views(
                            p.pins@.map(|k: int, a: PinAssignment| a.pin).take(j as int),
                        ),
                    ),
                    conflicts@.map(|k: int, c: PinConflict| c.pin@) == spec_conflict_pins(
                        spec_flat_pins(input.peripherals@.subrange(0, i as int)) + string_views(
                            p.pins@.map(|k: int, a: PinAssignment| a.pin).take(j as int),
                        ),
                    ),
                    forall|k: int|
                        0 <= k < conflicts@.len() ==> (#[trigger] conflicts@[k]).conflict@
                            == "Pin already used by another peripheral"@
                            && conflicts@[k].resolution@
                            == "Choose alternative pin or use multiplexing"@,
            {
                let ghost flat_pre = spec_flat_pins(input.peripherals@.subrange(0, i as int))
                    + string_views(p.pins@.map(|k: int, a: PinAssignment| a.pin).take(j as int));
                proof {
                    assert((spec_flat_pins(input.peripherals@.subrange(0, i as int))
                        + string_views(
                        p.pins@.map(|k: int, a: PinAssignment| a.pin).take(j + 1),
                    )).drop_last() =~= flat_pre);
                    assert((spec_flat_pins(input.peripherals@.subrange(0, i as int))
                        + string_views(
                        p.pins@.map(|k: int, a: PinAssignment| a.pin).take(j + 1),
                    )).last() == p.pins@[j as int].pin@);
                }
                if contains_string(&used_pins, p.pins[j].pin.as_str()) {
                    conflicts.push(
                        PinConflict {
                            pin: p.pins[j].pin.clone(),
                            conflict: "Pin already used by another peripheral".to_owned(),
                            resolution: "Choose alternative pin or use multiplexing".to_owned(),
                        },
                    );
                    proof {
                        assert(conflicts@.map(|k: int, c: PinConflict| c.pin@)
                            =~= spec_conflict_pins(flat_pre).push(p.pins@[j as int].pin@));
                        assert(string_views(used_pins@) =~= spec_unique_pins(
                            spec_flat_pins(input.peripherals@.subrange(0, i as int))
                                + string_views(
                                p.pins@.map(|k: int, a: PinAssignment| a.pin).take(j + 1),
                            ),
                        ));
                    }
                } else {
                    used_pins.push(p.pins[j].pin.clone());
                    proof {
                        assert(string_views(used_pins@) =~= spec_unique_pins(flat_pre).push(
                            p.pins@[j as int].pin@,
                        ));
                        assert(conflicts@.map(|k: int, c: PinConflict| c.pin@)
                            =~= spec_conflict_pins(
                            spec_flat_pins(input.peripherals@.subrange(0, i as int))
                                + string_views(
                                p.pins@.map(|k: int, a: PinAssignment| a.pin).take(j + 1),
                            ),
                        ));
                    }
                }
            }
            proof {
                assert(p.pins@.map(|k: int, a: PinAssignment| a.pin).take(m as int)
                    =~= p.pins@.map(|k: int, a: PinAssignment| a.pin));
                assert(spec_flat_pins(input.peripherals@.subrange(0, i + 1))
                    =~= spec_flat_pins(input.peripherals@.subrange(0, i as int)) + string_views(
                    p.pins@.map(|k: int, a: PinAssignment| a.pin),
                ));
            }
        }
        proof {
            assert(input.peripherals@.subrange(0, n as int) =~= input.peripherals@);
        }
        let config_code = generate_config_code(&input);
        let pinout_diagram = generate_pinout_diagram(&input);
        let available_pins = get_available_pins(input.board.as_str(), &used_pins);
        let used_count: u32 = if used_pins.len() >= u32::MAX as usize {
            u32::MAX
        } else {
            used_pins.len() as u32
        };
        let mut special_functions: Vec<String> = Vec::new();
        special_functions.push("I2C0".to_owned());
        special_functions.push("SPI0".to_owned());
        special_functions.push("UART1".to_owned());
        special_functions.push("PWM0-3".to_owned());
        proof {
            assert(string_views(special_functions@) =~= seq![
                "I2C0"@,
                "SPI0"@,
                "UART1"@,
                "PWM0-3"@,
            ]);
        }
        PinoutMapperOutput {
            pinout_diagram,
            config_code,
            conflicts,
            available_pins,
            usage_summary: PinUsageSummary {
                total_pins: 40,
                used_pins: used_count,
                gpio_available: 20,
                special_functions,
            },
        }
    }
}

} // verus!
