//! The hardware assistant tools.

use wake::hardware::circuit_analyzer::{
    CircuitAnalyzer, CircuitAnalyzerInput, Component, OperatingConditions,
};
use wake::hardware::datasheet_analyzer::{DatasheetAnalyzer, DatasheetAnalyzerInput};
use wake::hardware::firmware_flasher::{
    generate_bootloader_setup, generate_flash_command, generate_instructions,
    generate_troubleshooting, recommend_tools, FirmwareFlasher, FirmwareFlasherInput, FlashOptions,
};
use wake::hardware::pinout_mapper::{
    generate_config_code, generate_pinout_diagram, get_available_pins, Peripheral, PinAssignment,
    PinoutMapper, PinoutMapperInput,
};
use wake::hardware::protocol_debugger::{ProtocolDebugger, ProtocolDebuggerArgs};
use wake::hardware::timing_calculator::{TimingCalculator, TimingCalculatorArgs};
use wake::{Capability, ToolResult};

fn flasher_input(device: &str, action: &str, connection: &str) -> FirmwareFlasherInput {
    FirmwareFlasherInput {
        device: device.to_string(),
        firmware: "fw.bin".to_string(),
        connection: connection.to_string(),
        action: action.to_string(),
        options: None,
    }
}

#[test]
fn esp32_flash_command_is_exact() {
    let input = flasher_input("ESP32", "flash", "serial");
    assert_eq!(
        generate_flash_command(&input),
        "esptool.py --chip esp32 --port /dev/ttyUSB0 --baud 115200 write_flash -z 0x1000 fw.bin"
    );
    let input = FirmwareFlasherInput {
        options: Some(FlashOptions {
            port: Some("/dev/ttyACM1".to_string()),
            baud_rate: Some(921600),
            address: None,
            bootloader: None,
            verify: true,
        }),
        ..flasher_input("esp32", "erase", "serial")
    };
    assert_eq!(
        generate_flash_command(&input),
        "esptool.py --chip esp32 --port /dev/ttyACM1 erase_flash"
    );
}

#[test]
fn stm32_and_fallback_commands() {
    assert_eq!(
        generate_flash_command(&flasher_input("stm32", "flash", "dfu")),
        "dfu-util -a 0 -s 0x08000000:leave -D fw.bin"
    );
    assert_eq!(
        generate_flash_command(&flasher_input("stm32", "flash", "usb")),
        "st-flash write firmware.bin 0x8000000"
    );
    assert_eq!(
        generate_flash_command(&flasher_input("rp2040", "flash", "usb")),
        "picotool load fw.bin -f"
    );
    assert_eq!(
        generate_flash_command(&flasher_input("mystery", "flash", "usb")),
        "# Generic flash command for mystery\n# Adjust parameters as needed"
    );
}

#[test]
fn flasher_run_assembles_everything() {
    let flasher = FirmwareFlasher;
    let out = flasher.run(flasher_input("esp32", "flash", "serial"));
    assert!(out.command.starts_with("esptool.py"));
    assert_eq!(out.instructions.len(), 6);
    assert_eq!(out.instructions[0], "1. Install esptool: pip install esptool");
    assert_eq!(out.troubleshooting.len(), 4);
    assert_eq!(out.troubleshooting[0].issue, "Device not detected");
    let setup = out.bootloader_setup.unwrap();
    assert_eq!(setup.method, "UART Bootloader");
    assert_eq!(setup.steps.len(), 3);
    assert_eq!(out.tools_needed.len(), 2);
    assert_eq!(out.tools_needed[0].name, "esptool");

    let out = flasher.run(flasher_input("nrf52", "flash", "swd"));
    assert!(out.bootloader_setup.is_none());
    assert_eq!(out.tools_needed.len(), 1);
    assert_eq!(out.instructions.len(), 5);
    assert_eq!(generate_instructions(&flasher_input("arduino", "flash", "usb")).len(), 5);
    assert_eq!(generate_troubleshooting(&flasher_input("x", "y", "z")).len(), 4);
    assert!(generate_bootloader_setup(&flasher_input("stm32", "flash", "swd")).is_some());
    assert_eq!(recommend_tools(&flasher_input("stm32", "flash", "swd"))[1].name, "OpenOCD");
}

fn mapper_input() -> PinoutMapperInput {
    PinoutMapperInput {
        board: "pico".to_string(),
        peripherals: vec![
            Peripheral {
                name: "bus".to_string(),
                type_: "i2c".to_string(),
                pins: vec![
                    PinAssignment {
                        function: "SDA".to_string(),
                        pin: "GP0".to_string(),
                    },
                    PinAssignment {
                        function: "SCL".to_string(),
                        pin: "GP1".to_string(),
                    },
                ],
            },
            Peripheral {
                name: "led".to_string(),
                type_: "gpio".to_string(),
                pins: vec![PinAssignment {
                    function: "OUT".to_string(),
                    pin: "GP0".to_string(),
                }],
            },
        ],
        platform: "arduino".to_string(),
    }
}

#[test]
fn pin_conflicts_are_reported_in_order() {
    let mapper = PinoutMapper;
    let out = mapper.run(mapper_input());
    assert_eq!(out.conflicts.len(), 1);
    assert_eq!(out.conflicts[0].pin, "GP0");
    assert_eq!(out.conflicts[0].conflict, "Pin already used by another peripheral");
    assert_eq!(out.usage_summary.used_pins, 2);
    assert_eq!(out.usage_summary.total_pins, 40);
    assert!(!out.available_pins.contains(&"GP0".to_string()));
    assert!(!out.available_pins.contains(&"GP1".to_string()));
    assert!(out.available_pins.contains(&"GP2".to_string()));
    assert_eq!(out.available_pins.len(), 38);
}

#[test]
fn arduino_config_code_is_exact() {
    let code = generate_config_code(&mapper_input());
    let expected = "// Pin Configuration for Arduino\n\n\
                    // bus Configuration\n\
                    #define BUS_SDA GP0\n\
                    #define BUS_SCL GP1\n\n\
                    // led Configuration\n\
                    #define LED_OUT GP0\n\n\
                    void setup() {\n  Wire.begin();\n  pinMode(GP0, OUTPUT);\n}\n";
    assert_eq!(code, expected);
}

#[test]
fn diagram_and_available_pins() {
    let diagram = generate_pinout_diagram(&mapper_input());
    assert!(diagram.contains("pico Pinout Map"));
    assert!(diagram.contains("  SDA(GP0)│"));
    assert!(diagram.contains("  bus - i2c"));

    let used = vec!["GP5".to_string()];
    let available = get_available_pins("pico", &used);
    assert_eq!(available.len(), 39);
    assert!(!available.contains(&"GP5".to_string()));
    assert_eq!(available[0], "GP0");
}

#[test]
fn i2c_debugging_keys_on_symptoms() {
    let debugger = ProtocolDebugger::new();
    let args = ProtocolDebuggerArgs {
        protocol: "i2c".to_string(),
        issue: "Device not responding, getting NACK".to_string(),
        hardware_setup: Some("3.3V MCU with 5V sensor".to_string()),
        parameters: None,
        error_messages: Some("timeout waiting for ack".to_string()),
        captured_data: None,
    };
    let nack_analysis = debugger.analyze_i2c_issue(&args);
    assert!(nack_analysis.contains("NACK (Not Acknowledged) Issues"));
    assert!(nack_analysis.contains("Voltage Level Mismatch Detected"));
    assert!(!nack_analysis.contains("Bus Stuck/Hanging Issues"));

    match debugger.execute(args) {
        ToolResult::Success { output } => {
            assert!(output.starts_with("## I2C Protocol Debug Analysis"));
            assert!(output.contains("Timeout Error"));
            assert!(!output.contains("Bus Busy Error"));
        }
        ToolResult::Failure { message } => panic!("unexpected failure: {}", message),
    }
}

#[test]
fn protocol_selection_and_fallback() {
    let debugger = ProtocolDebugger::new();
    let spi = debugger.analyze_spi_issue(&ProtocolDebuggerArgs {
        protocol: "SPI".to_string(),
        issue: "MISO line silent".to_string(),
        hardware_setup: None,
        parameters: None,
        error_messages: None,
        captured_data: None,
    });
    assert!(spi.contains("MISO/No Response Issues"));

    let uart = debugger.analyze_uart_issue(&ProtocolDebuggerArgs {
        protocol: "UART".to_string(),
        issue: "garbage characters".to_string(),
        hardware_setup: None,
        parameters: Some("115200 8N1".to_string()),
        error_messages: None,
        captured_data: None,
    });
    assert!(uart.contains("Baud Rate Mismatch"));
    assert!(uart.contains("High Baud Rate Considerations"));

    let args = ProtocolDebuggerArgs {
        protocol: "CAN".to_string(),
        issue: "bus off".to_string(),
        hardware_setup: None,
        parameters: None,
        error_messages: None,
        captured_data: Some("0x7FF 8 00".to_string()),
    };
    let general = debugger.analyze_general_issue(&args);
    assert!(general.starts_with("## CAN Protocol Debug Analysis"));
    match debugger.execute(args) {
        ToolResult::Success { output } => {
            assert!(output.contains("### Captured Data Analysis:"));
            assert!(output.contains("0x7FF 8 00"));
        }
        ToolResult::Failure { message } => panic!("unexpected failure: {}", message),
    }
    assert_eq!(debugger.name(), "protocol_debugger");
    assert_eq!(debugger.capabilities(), vec![Capability::Read]);
}

#[test]
fn timing_report_is_exact() {
    let calc = TimingCalculator::new();
    let result = calc.execute(TimingCalculatorArgs {
        calc_type: "baud-rate".to_string(),
        clock_freq: 16000000,
        target: 9600,
        constraints: None,
    });
    match result {
        ToolResult::Success { output } => {
            assert_eq!(
                output,
                "## Timing Calculation\n\n### Type: baud-rate\n### Clock: 16000000 Hz\n### Target: 9600\n\nThis tool calculates:\n- Prescaler and divider values\n- Actual vs desired frequencies\n- Timing accuracy and errors\n- Register configuration values\n"
            );
        }
        ToolResult::Failure { message } => panic!("unexpected failure: {}", message),
    }
    assert_eq!(calc.name(), "timing_calculator");
}

#[test]
fn circuit_analysis_by_type() {
    let analyzer = CircuitAnalyzer;
    let input = CircuitAnalyzerInput {
        circuit_description: "LED driver".to_string(),
        analysis_type: "Power".to_string(),
        components: vec![
            Component {
                name: "R1".to_string(),
                type_: "resistor".to_string(),
                value: "220".to_string(),
                tolerance: None,
                power_rating: None,
            },
            Component {
                name: "C1".to_string(),
                type_: "capacitor".to_string(),
                value: "100n".to_string(),
                tolerance: None,
                power_rating: None,
            },
        ],
        conditions: OperatingConditions {
            supply_voltage: "5V".to_string(),
            temperature: "25C".to_string(),
            frequency: None,
        },
    };
    let out = analyzer.run(input);
    assert_eq!(out.calculations.len(), 1);
    assert_eq!(out.calculations[0].parameter, "Total Power");
    assert_eq!(out.calculations[0].result, "500");
    assert_eq!(out.recommendations, vec!["Ensure R1 has adequate power rating".to_string()]);
    assert_eq!(out.analysis.power_consumption, "Estimated: 250mW total");
    assert_eq!(out.analysis.voltage_drops.len(), 2);
    assert!(out.issues.is_empty());
}

#[test]
fn datasheet_skeleton_names_the_component() {
    let analyzer = DatasheetAnalyzer;
    let out = analyzer.run(DatasheetAnalyzerInput {
        datasheet_path: "mpu6050.pdf".to_string(),
        component_type: "MPU6050".to_string(),
        extract_type: "all".to_string(),
    });
    assert_eq!(out.component_info.part_number, "MPU6050");
    assert_eq!(out.component_info.manufacturer, "Example Corp");
    let regs = out.registers.unwrap();
    assert_eq!(regs.len(), 1);
    assert_eq!(regs[0].name, "CONFIG");
    assert_eq!(regs[0].bits[0].values, vec!["00: Normal", "01: Sleep"]);
    assert_eq!(out.protocols[0].name, "I2C");
    assert_eq!(out.timing.unwrap().clock_frequency, "1MHz");
}
