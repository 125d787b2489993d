//! Protocol debugging: analyses of I2C, SPI, UART and other communication
//! problems, keyed on the symptoms named in the request.

use vstd::prelude::*;
use vstd::string::StringExecFns;
use crate::claims::Capability;
use crate::textutil::{ascii_lower, ascii_upper, spec_ascii_lower, spec_ascii_upper, spec_contains, str_contains, str_eq};
use crate::tools::ToolResult;

verus! {

/// What the debugger is asked to look at.
#[derive(Clone, Debug, PartialEq)]
pub struct ProtocolDebuggerArgs {
    /// Communication protocol to debug (I2C, SPI, UART, CAN, OneWire).
    pub protocol: String,
    /// The issue or error being experienced.
    pub issue: String,
    /// Hardware setup details (voltage levels, pull-up resistors, ...).
    pub hardware_setup: Option<String>,
    /// Communication parameters (baud rate, clock speed, ...).
    pub parameters: Option<String>,
    /// Error messages or symptoms.
    pub error_messages: Option<String>,
    /// Captured data or logic analyzer output, if available.
    pub captured_data: Option<String>,
}

/// The debugger itself; stateless.
pub struct ProtocolDebugger;

/// The I2C analysis: symptom blocks keyed on the lower-cased issue text, a
/// voltage warning when the setup names both rails, and fixed debug steps.
pub open spec fn spec_i2c_analysis(args: ProtocolDebuggerArgs) -> Seq<char> {
    let issue = spec_ascii_lower(args.issue@);
    "## I2C Protocol Debug Analysis\n\n"@ + "### Common I2C Issues Check:\n\n"@ + (
    if spec_contains(issue, "nack"@) || spec_contains(issue, "not acknowledged"@) {
        "**NACK (Not Acknowledged) Issues:**\n1. **Wrong Device Address**: Verify the I2C address (7-bit vs 8-bit confusion)\n   - Many datasheets show 8-bit address, but most libraries expect 7-bit\n   - Try shifting address right by 1 bit: `address >> 1`\n\n2. **Device Not Powered**: Check VCC and GND connections\n3. **Device in Reset**: Some devices need time after power-up\n   - Add 100ms delay after power-on\n\n"@
    } else {
        Seq::empty()
    }) + (if spec_contains(issue, "garbage"@) || spec_contains(issue, "wrong data"@) {
        "**Data Corruption Issues:**\n1. **Pull-up Resistors**: Check pull-up resistor values\n   - Typical: 4.7kΩ for 100kHz, 2.2kΩ for 400kHz\n   - Formula: R_min = (V_dd - 0.4V) / 3mA\n\n2. **Clock Stretching**: Some devices need clock stretching support\n3. **Bus Capacitance**: Long wires increase capacitance\n   - Maximum: 400pF for standard mode\n\n"@
    } else {
        Seq::empty()
    }) + (if spec_contains(issue, "stuck"@) || spec_contains(issue, "hang"@) {
        "**Bus Stuck/Hanging Issues:**\n1. **SDA Stuck Low**: Device might be holding SDA low\n   ```c\n   // Recovery sequence: Toggle SCL 9 times\n   for(int i = 0; i < 9; i++) {\n       SCL_HIGH();\n       delay_us(5);\n       SCL_LOW();\n       delay_us(5);\n   }\n   // Send STOP condition\n   ```\n\n2. **Multi-Master Conflict**: Check if multiple masters on bus\n"@
    } else {
        Seq::empty()
    }) + (match args.hardware_setup {
        Some(setup) => if spec_contains(setup@, "3.3"@) && spec_contains(setup@, "5"@) {
            "**⚠️ Voltage Level Mismatch Detected:**\n- Using 3.3V and 5V devices together requires level shifting\n- Options:\n  1. Use I2C-safe level shifter (e.g., PCA9306)\n  2. Use MOSFETs for bidirectional level shifting\n  3. Check if 5V device is 3.3V tolerant\n\n"@
        } else {
            Seq::empty()
        },
        None => Seq::empty(),
    })
        + "### Debugging Steps:\n\n1. **Scan for Devices**:\n   ```c\n   for(uint8_t addr = 1; addr < 127; addr++) {\n       if(i2c_start(addr << 1) == 0) {\n           printf(\"Device found at 0x%02X\\n\", addr);\n       }\n       i2c_stop();\n   }\n   ```\n\n2. **Check Signal Quality**: Use oscilloscope or logic analyzer\n3. **Verify Timing**: Ensure setup and hold times are met\n4. **Test with Lower Speed**: Try 10kHz or 50kHz first"@
}

/// The SPI analysis: symptom blocks, the timing diagram and a test snippet.
pub open spec fn spec_spi_analysis(args: ProtocolDebuggerArgs) -> Seq<char> {
    let issue = spec_ascii_lower(args.issue@);
    "## SPI Protocol Debug Analysis\n\n"@ + "### Common SPI Issues Check:\n\n"@ + (
    if spec_contains(issue, "miso"@) || spec_contains(issue, "no response"@) {
        "**MISO/No Response Issues:**\n1. **CS (Chip Select) Polarity**: Most devices need CS LOW to communicate\n2. **MISO Connection**: Verify MISO is connected (not MOSI-MOSI)\n3. **Device Power**: Check if device is properly powered\n\n"@
    } else {
        Seq::empty()
    }) + (if spec_contains(issue, "wrong"@) || spec_contains(issue, "shifted"@) {
        "**Data Corruption/Shifted Issues:**\n1. **SPI Mode Mismatch**: Check CPOL and CPHA settings\n   - Mode 0: CPOL=0, CPHA=0 (most common)\n   - Mode 1: CPOL=0, CPHA=1\n   - Mode 2: CPOL=1, CPHA=0\n   - Mode 3: CPOL=1, CPHA=1\n\n2. **Bit Order**: Check MSB vs LSB first\n3. **Clock Speed Too High**: Try reducing SPI clock\n\n"@
    } else {
        Seq::empty()
    })
        + "### SPI Timing Diagram:\n```\nCS    ‾‾‾\\_______________/‾‾‾\nCLK   ___/‾\\_/‾\\_/‾\\_/‾\\___\nMOSI  ___X___X___X___X_____\nMISO  ___X___X___X___X_____\n```\n\n"@
        + "### Debug Code Example:\n```c\n// Test SPI communication\nuint8_t test_spi_device(void) {\n    uint8_t tx_data = 0x55; // Test pattern\n    uint8_t rx_data;\n    \n    CS_LOW();\n    delay_us(1);\n    rx_data = spi_transfer(tx_data);\n    delay_us(1);\n    CS_HIGH();\n    \n    return rx_data;\n}\n```\n"@
}

/// The UART analysis: symptom blocks, a high-baud note when the parameters
/// suggest one, the signal example and debug tips.
pub open spec fn spec_uart_analysis(args: ProtocolDebuggerArgs) -> Seq<char> {
    let issue = spec_ascii_lower(args.issue@);
    "## UART Protocol Debug Analysis\n\n"@ + "### Common UART Issues Check:\n\n"@ + (
    if spec_contains(issue, "garbage"@) || spec_contains(issue, "symbols"@) {
        "**Garbage Data/Wrong Characters:**\n1. **Baud Rate Mismatch**: Most common issue!\n   - Verify both devices use same baud rate\n   - Common rates: 9600, 19200, 38400, 57600, 115200\n\n2. **Frame Format Mismatch**:\n   - Check data bits (usually 8)\n   - Check parity (usually None)\n   - Check stop bits (usually 1)\n   - Format notation: 8N1 = 8 data, No parity, 1 stop\n\n"@
    } else {
        Seq::empty()
    }) + (if spec_contains(issue, "no data"@) || spec_contains(issue, "not receiving"@) {
        "**No Data Received:**\n1. **TX/RX Swapped**: Most common wiring issue\n   - Device A TX → Device B RX\n   - Device A RX → Device B TX\n\n2. **Ground Connection**: Devices must share ground\n3. **Voltage Levels**: Check if levels match\n   - TTL/CMOS: 0V/3.3V or 0V/5V\n   - RS-232: ±3V to ±15V (inverted!)\n\n"@
    } else {
        Seq::empty()
    }) + (match args.parameters {
        Some(params) => if spec_contains(params@, "115200"@) || spec_contains(params@, "high"@) {
            "**High Baud Rate Considerations:**\n- At 115200 baud, each bit is only 8.68μs\n- Long cables can cause issues (keep under 15 feet)\n- Consider using lower baud rate for testing\n\n"@
        } else {
            Seq::empty()
        },
        None => Seq::empty(),
    })
        + "### UART Signal Example:\n```\n     Start  D0 D1 D2 D3 D4 D5 D6 D7 Stop\n      ___                           ___\n         \\___|‾|_|‾|‾|_|‾|_|_|‾|__/\n      Idle  0  1  0  1  1  0  1  0  0  Idle\n      \nCharacter 'U' (0x55) = 01010101 binary\n```\n\n"@
        + "### Debug Tips:\n1. **Loopback Test**: Connect TX to RX on same device\n2. **Send Known Pattern**: Send 'U' (0x55) for 01010101 pattern\n3. **Use Terminal Software**: Test with known-good terminal first\n4. **Check with Oscilloscope**: Measure actual bit timing"@
}

/// The fallback analysis for other protocols.
pub open spec fn spec_general_analysis(args: ProtocolDebuggerArgs) -> Seq<char> {
    "## "@ + args.protocol@ + " Protocol Debug Analysis\n\n### Issue Description:\n"@ + args.issue@
        + "\n\n### General Debugging Steps:\n1. **Verify Connections**: Check all wiring and connections\n2. **Power Supply**: Ensure adequate power for all devices\n3. **Ground Connection**: All devices must share common ground\n4. **Signal Integrity**: Use oscilloscope to check signal quality\n5. **Timing Requirements**: Verify setup/hold times are met\n6. **Protocol Analyzer**: Use logic analyzer to capture communication\n\n### Hardware Checks:\n- Measure voltages with multimeter\n- Check for shorts or open circuits\n- Verify pull-up/pull-down resistors\n- Test with minimal setup first\n\n### Software Checks:\n- Verify initialization sequence\n- Check timing delays\n- Confirm protocol parameters\n- Add debug output at each step\n"@
}

/// Which analysis the protocol name selects, by its upper-cased form.
pub open spec fn spec_selected_analysis(args: ProtocolDebuggerArgs) -> Seq<char> {
    let protocol = spec_ascii_upper(args.protocol@);
    if protocol == "I2C"@ || protocol == "IIC"@ || protocol == "TWI"@ {
        spec_i2c_analysis(args)
    } else if protocol == "SPI"@ {
        spec_spi_analysis(args)
    } else if protocol == "UART"@ || protocol == "SERIAL"@ || protocol == "RS232"@ || protocol
        == "RS-232"@ {
        spec_uart_analysis(args)
    } else {
        spec_general_analysis(args)
    }
}

/// The full answer: the selected analysis, the captured-data section when a
/// capture was supplied, and the error-message section keyed on its text.
pub open spec fn spec_debug_report(args: ProtocolDebuggerArgs) -> Seq<char> {
    spec_selected_analysis(args) + (match args.captured_data {
        Some(data) => "\n### Captured Data Analysis:\n"@ + "```\n"@ + data@ + "\n```\n"@
            + "- Look for timing violations\n- Check for signal integrity issues\n- Verify protocol compliance\n"@,
        None => Seq::empty(),
    }) + (match args.error_messages {
        Some(errors) => "\n### Error Message Analysis:\n"@ + (
        if spec_contains(errors@, "timeout"@) {
            "- **Timeout Error**: Device not responding in time\n  - Check if device is powered and not in reset\n  - Increase timeout value\n  - Verify clock/baud rate settings\n"@
        } else {
            Seq::empty()
        }) + (if spec_contains(errors@, "busy"@) {
            "- **Bus Busy Error**: Another transaction in progress\n  - Check for multi-master conflicts\n  - Ensure proper transaction completion\n  - Add delays between transactions\n"@
        } else {
            Seq::empty()
        }),
        None => Seq::empty(),
    })
}

impl ProtocolDebugger {
    pub fn new() -> (r: ProtocolDebugger) {
        ProtocolDebugger
    }

    /// The I2C analysis for the given symptoms.
    pub fn analyze_i2c_issue(&self, args: &ProtocolDebuggerArgs) -> (r: String)
        ensures
            r@ == spec_i2c_analysis(*args),
    {
        let issue = ascii_lower(args.issue.as_str());
        let mut analysis = "## I2C Protocol Debug Analysis\n\n".to_owned();
        analysis.append("### Common I2C Issues Check:\n\n");
        if str_contains(issue.as_str(), "nack") || str_contains(issue.as_str(), "not acknowledged")
        {
            analysis.append(
                "**NACK (Not Acknowledged) Issues:**\n1. **Wrong Device Address**: Verify the I2C address (7-bit vs 8-bit confusion)\n   - Many datasheets show 8-bit address, but most libraries expect 7-bit\n   - Try shifting address right by 1 bit: `address >> 1`\n\n2. **Device Not Powered**: Check VCC and GND connections\n3. **Device in Reset**: Some devices need time after power-up\n   - Add 100ms delay after power-on\n\n",
            );
        }
        if str_contains(issue.as_str(), "garbage") || str_contains(issue.as_str(), "wrong data") {
            analysis.append(
                "**Data Corruption Issues:**\n1. **Pull-up Resistors**: Check pull-up resistor values\n   - Typical: 4.7kΩ for 100kHz, 2.2kΩ for 400kHz\n   - Formula: R_min = (V_dd - 0.4V) / 3mA\n\n2. **Clock Stretching**: Some devices need clock stretching support\n3. **Bus Capacitance**: Long wires increase capacitance\n   - Maximum: 400pF for standard mode\n\n",
            );
        }
        if str_contains(issue.as_str(), "stuck") || str_contains(issue.as_str(), "hang") {
            analysis.append(
                "**Bus Stuck/Hanging Issues:**\n1. **SDA Stuck Low**: Device might be holding SDA low\n   ```c\n   // Recovery sequence: Toggle SCL 9 times\n   for(int i = 0; i < 9; i++) {\n       SCL_HIGH();\n       delay_us(5);\n       SCL_LOW();\n       delay_us(5);\n   }\n   // Send STOP condition\n   ```\n\n2. **Multi-Master Conflict**: Check if multiple masters on bus\n",
            );
        }
        match &args.hardware_setup {
            Some(setup) => {
                if str_contains(setup.as_str(), "3.3") && str_contains(setup.as_str(), "5") {
                    analysis.append(
                        "**⚠️ Voltage Level Mismatch Detected:**\n- Using 3.3V and 5V devices together requires level shifting\n- Options:\n  1. Use I2C-safe level shifter (e.g., PCA9306)\n  2. Use MOSFETs for bidirectional level shifting\n  3. Check if 5V device is 3.3V tolerant\n\n",
                    );
                }
            },
            None => {},
        }
        analysis.append(
            "### Debugging Steps:\n\n1. **Scan for Devices**:\n   ```c\n   for(uint8_t addr = 1; addr < 127; addr++) {\n       if(i2c_start(addr << 1) == 0) {\n           printf(\"Device found at 0x%02X\\n\", addr);\n       }\n       i2c_stop();\n   }\n   ```\n\n2. **Check Signal Quality**: Use oscilloscope or logic analyzer\n3. **Verify Timing**: Ensure setup and hold times are met\n4. **Test with Lower Speed**: Try 10kHz or 50kHz first",
        );
        analysis
    }

    /// The SPI analysis for the given symptoms.
    pub fn analyze_spi_issue(&self, args: &ProtocolDebuggerArgs) -> (r: String)
        ensures
            r@ == spec_spi_analysis(*args),
    {
        let issue = ascii_lower(args.issue.as_str());
        let mut analysis = "## SPI Protocol Debug Analysis\n\n".to_owned();
        analysis.append("### Common SPI Issues Check:\n\n");
        if str_contains(issue.as_str(), "miso") || str_contains(issue.as_str(), "no response") {
            analysis.append(
                "**MISO/No Response Issues:**\n1. **CS (Chip Select) Polarity**: Most devices need CS LOW to communicate\n2. **MISO Connection**: Verify MISO is connected (not MOSI-MOSI)\n3. **Device Power**: Check if device is properly powered\n\n",
            );
        }
        if str_contains(issue.as_str(), "wrong") || str_contains(issue.as_str(), "shifted") {
            analysis.append(
                "**Data Corruption/Shifted Issues:**\n1. **SPI Mode Mismatch**: Check CPOL and CPHA settings\n   - Mode 0: CPOL=0, CPHA=0 (most common)\n   - Mode 1: CPOL=0, CPHA=1\n   - Mode 2: CPOL=1, CPHA=0\n   - Mode 3: CPOL=1, CPHA=1\n\n2. **Bit Order**: Check MSB vs LSB first\n3. **Clock Speed Too High**: Try reducing SPI clock\n\n",
            );
        }
        analysis.append(
            "### SPI Timing Diagram:\n```\nCS    ‾‾‾\\_______________/‾‾‾\nCLK   ___/‾\\_/‾\\_/‾\\_/‾\\___\nMOSI  ___X___X___X___X_____\nMISO  ___X___X___X___X_____\n```\n\n",
        );
        analysis.append(
            "### Debug Code Example:\n```c\n// Test SPI communication\nuint8_t test_spi_device(void) {\n    uint8_t tx_data = 0x55; // Test pattern\n    uint8_t rx_data;\n    \n    CS_LOW();\n    delay_us(1);\n    rx_data = spi_transfer(tx_data);\n    delay_us(1);\n    CS_HIGH();\n    \n    return rx_data;\n}\n```\n",
        );
        analysis
    }

    /// The UART analysis for the given symptoms.
    pub fn analyze_uart_issue(&self, args: &ProtocolDebuggerArgs) -> (r: String)
        ensures
            r@ == spec_uart_analysis(*args),
    {
        let issue = ascii_lower(args.issue.as_str());
        let mut analysis = "## UART Protocol Debug Analysis\n\n".to_owned();
        analysis.append("### Common UART Issues Check:\n\n");
        if str_contains(issue.as_str(), "garbage") || str_contains(issue.as_str(), "symbols") {
            analysis.append(
                "**Garbage Data/Wrong Characters:**\n1. **Baud Rate Mismatch**: Most common issue!\n   - Verify both devices use same baud rate\n   - Common rates: 9600, 19200, 38400, 57600, 115200\n\n2. **Frame Format Mismatch**:\n   - Check data bits (usually 8)\n   - Check parity (usually None)\n   - Check stop bits (usually 1)\n   - Format notation: 8N1 = 8 data, No parity, 1 stop\n\n",
            );
        }
        if str_contains(issue.as_str(), "no data") || str_contains(issue.as_str(), "not receiving")
        {
            analysis.append(
                "**No Data Received:**\n1. **TX/RX Swapped**: Most common wiring issue\n   - Device A TX → Device B RX\n   - Device A RX → Device B TX\n\n2. **Ground Connection**: Devices must share ground\n3. **Voltage Levels**: Check if levels match\n   - TTL/CMOS: 0V/3.3V or 0V/5V\n   - RS-232: ±3V to ±15V (inverted!)\n\n",
            );
        }
        match &args.parameters {
            Some(params) => {
                if str_contains(params.as_str(), "115200") || str_contains(params.as_str(), "high")
                {
                    analysis.append(
                        "**High Baud Rate Considerations:**\n- At 115200 baud, each bit is only 8.68μs\n- Long cables can cause issues (keep under 15 feet)\n- Consider using lower baud rate for testing\n\n",
                    );
                }
            },
            None => {},
        }
        analysis.append(
            "### UART Signal Example:\n```\n     Start  D0 D1 D2 D3 D4 D5 D6 D7 Stop\n      ___                           ___\n         \\___|‾|_|‾|‾|_|‾|_|_|‾|__/\n      Idle  0  1  0  1  1  0  1  0  0  Idle\n      \nCharacter 'U' (0x55) = 01010101 binary\n```\n\n",
        );
        analysis.append(
            "### Debug Tips:\n1. **Loopback Test**: Connect TX to RX on same device\n2. **Send Known Pattern**: Send 'U' (0x55) for 01010101 pattern\n3. **Use Terminal Software**: Test with known-good terminal first\n4. **Check with Oscilloscope**: Measure actual bit timing",
        );
        analysis
    }

    /// The fallback analysis for other protocols.
    pub fn analyze_general_issue(&self, args: &ProtocolDebuggerArgs) -> (r: String)
        ensures
            r@ == spec_general_analysis(*args),
    {
        let mut analysis = "## ".to_owned();
        analysis.append(args.protocol.as_str());
        analysis.append(" Protocol Debug Analysis\n\n### Issue Description:\n");
        analysis.append(args.issue.as_str());
        analysis.append(
            "\n\n### General Debugging Steps:\n1. **Verify Connections**: Check all wiring and connections\n2. **Power Supply**: Ensure adequate power for all devices\n3. **Ground Connection**: All devices must share common ground\n4. **Signal Integrity**: Use oscilloscope to check signal quality\n5. **Timing Requirements**: Verify setup/hold times are met\n6. **Protocol Analyzer**: Use logic analyzer to capture communication\n\n### Hardware Checks:\n- Measure voltages with multimeter\n- Check for shorts or open circuits\n- Verify pull-up/pull-down resistors\n- Test with minimal setup first\n\n### Software Checks:\n- Verify initialization sequence\n- Check timing delays\n- Confirm protocol parameters\n- Add debug output at each step\n",
        );
        analysis
    }

    /// The capability the debugger declares: it only reads.
    pub fn capabilities(&self) -> (r: Vec<Capability>)
        ensures
            r@ == seq![Capability::Read],
    {
        let mut v: Vec<Capability> = Vec::new();
        v.push(Capability::Read);
        proof {
            assert(v@ =~= seq![Capability::Read]);
        }
        v
    }

    /// Run the debugger: pick the analysis the protocol selects and append
    /// the captured-data and error-message sections.
    #[verifier::rlimit(60)]
    pub fn execute(&self, args: ProtocolDebuggerArgs) -> (r: ToolResult)
        ensures
            (r matches ToolResult::Success { output } && output@ == spec_debug_report(args)),
    {
        let protocol = ascii_upper(args.protocol.as_str());
        let mut result: String;
        if str_eq(protocol.as_str(), "I2C") || str_eq(protocol.as_str(), "IIC") || str_eq(
            protocol.as_str(),
            "TWI",
        ) {
            result = self.analyze_i2c_issue(&args);
        } else if str_eq(protocol.as_str(), "SPI") {
            result = self.analyze_spi_issue(&args);
        } else if str_eq(protocol.as_str(), "UART") || str_eq(protocol.as_str(), "SERIAL")
            || str_eq(protocol.as_str(), "RS232") || str_eq(protocol.as_str(), "RS-232") {
            result = self.analyze_uart_issue(&args);
        } else {
            result = self.analyze_general_issue(&args);
        }
        match &args.captured_data {
            Some(data) => {
                result.append("\n### Captured Data Analysis:\n");
                result.append("```\n");
                result.append(data.as_str());
                result.append("\n```\n");
                result.append(
                    "- Look for timing violations\n- Check for signal integrity issues\n- Verify protocol compliance\n",
                );
            },
            None => {},
        }
        match &args.error_messages {
            Some(errors) => {
                result.append("\n### Error Message Analysis:\n");
                if str_contains(errors.as_str(), "timeout") {
                    result.append(
                        "- **Timeout Error**: Device not responding in time\n  - Check if device is powered and not in reset\n  - Increase timeout value\n  - Verify clock/baud rate settings\n",
                    );
                }
                if str_contains(errors.as_str(), "busy") {
                    result.append(
                        "- **Bus Busy Error**: Another transaction in progress\n  - Check for multi-master conflicts\n  - Ensure proper transaction completion\n  - Add delays between transactions\n",
                    );
                }
            },
            None => {},
        }
        proof {
            assert(result@ =~= spec_debug_report(args));
        }
        ToolResult::Success { output: result }
    }

    /// The tool's registered name.
    pub fn name(&self) -> (r: &'static str)
        ensures
            r@ == "protocol_debugger"@,
    {
        "protocol_debugger"
    }

    /// The tool's one-line description.
    pub fn description(&self) -> (r: &'static str)
        ensures
            r@
                == "Debug hardware communication protocol issues. Analyzes I2C, SPI, UART, CAN and other protocol problems, providing specific troubleshooting steps and solutions."@,
    {
        "Debug hardware communication protocol issues. Analyzes I2C, SPI, UART, CAN and other protocol problems, providing specific troubleshooting steps and solutions."
    }
}

} // verus!
