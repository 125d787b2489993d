//! Datasheet extraction: the structured form a component datasheet is read
//! into — register maps, pinout, protocols, timing and electrical limits.
//! Reading a real document is collaborator work; what stands here is the
//! structure and the skeleton extraction the analyzer answers with.

use vstd::prelude::*;
use vstd::string::StringExecFns;

verus! {

/// What the analyzer is asked to extract.
#[derive(Clone, Debug, PartialEq)]
pub struct DatasheetAnalyzerInput {
    /// Path to the datasheet document or its URL.
    pub datasheet_path: String,
    /// Type of component (sensor, mcu, display, ...).
    pub component_type: String,
    /// Specific information to extract (registers, timing, pinout, all).
    pub extract_type: String,
}

#[derive(Clone, Debug, PartialEq)]
pub struct DatasheetAnalyzerOutput {
    /// Component name and model.
    pub component_info: ComponentInfo,
    /// Register map if applicable.
    pub registers: Option<Vec<Register>>,
    /// Pin configuration.
    pub pinout: Option<Vec<Pin>>,
    /// Communication protocols supported.
    pub protocols: Vec<Protocol>,
    /// Timing specifications.
    pub timing: Option<TimingSpecs>,
    /// Electrical characteristics.
    pub electrical: Option<ElectricalSpecs>,
}

#[derive(Clone, Debug, PartialEq)]
pub struct ComponentInfo {
    pub manufacturer: String,
    pub part_number: String,
    pub description: String,
    pub package_type: String,
}

#[derive(Clone, Debug, PartialEq)]
pub struct Register {
    pub address: String,
    pub name: String,
    pub description: String,
    pub bits: Vec<BitField>,
    pub default_value: String,
    pub read_write: String,
}

#[derive(Clone, Debug, PartialEq)]
pub struct BitField {
    pub bits: String,
    pub name: String,
    pub description: String,
    pub values: Vec<String>,
}

#[derive(Clone, Debug, PartialEq)]
pub struct Pin {
    pub number: u32,
    pub name: String,
    pub function: String,
    /// input, output, power, ground, ...
    pub type_: String,
    pub voltage: Option<String>,
}

#[derive(Clone, Debug, PartialEq)]
pub struct Protocol {
    /// I2C, SPI, UART, ...
    pub name: String,
    pub max_speed: String,
    pub voltage_levels: String,
    pub notes: String,
}

#[derive(Clone, Debug, PartialEq)]
pub struct TimingSpecs {
    pub clock_frequency: String,
    pub setup_time: String,
    pub hold_time: String,
    pub rise_time: String,
    pub fall_time: String,
    pub additional: Vec<(String, String)>,
}

#[derive(Clone, Debug, PartialEq)]
pub struct ElectricalSpecs {
    pub supply_voltage: String,
    pub current_consumption: String,
    pub operating_temperature: String,
    pub io_voltage: String,
    pub additional: Vec<(String, String)>,
}

/// The analyzer itself; stateless.
pub struct DatasheetAnalyzer;

impl DatasheetAnalyzer {
    /// Answer with the skeleton extraction: the component named by the
    /// request, one configuration register, the supply pin, the I2C
    /// protocol, and the standard timing and electrical blocks.
    pub fn run(&self, input: DatasheetAnalyzerInput) -> (r: DatasheetAnalyzerOutput)
        ensures
            r.component_info.manufacturer@ == "Example Corp"@,
            r.component_info.part_number@ == input.component_type@,
            r.component_info.description@ == "Hardware component from datasheet"@,
            r.component_info.package_type@ == "QFN-20"@,
            (r.registers matches Some(regs) && {
                &&& regs@.len() == 1
                &&& regs@[0].address@ == "0x00"@
                &&& regs@[0].name@ == "CONFIG"@
                &&& regs@[0].description@ == "Configuration register"@
                &&& regs@[0].default_value@ == "0x00"@
                &&& regs@[0].read_write@ == "RW"@
                &&& regs@[0].bits@.len() == 1
                &&& regs@[0].bits@[0].bits@ == "7:6"@
                &&& regs@[0].bits@[0].name@ == "MODE"@
                &&& regs@[0].bits@[0].description@ == "Operating mode"@
                &&& regs@[0].bits@[0].values@.len() == 2
                &&& regs@[0].bits@[0].values@[0]@ == "00: Normal"@
                &&& regs@[0].bits@[0].values@[1]@ == "01: Sleep"@
            }),
            (r.pinout matches Some(pins) && {
                &&& pins@.len() == 1
                &&& pins@[0].number == 1u32
                &&& pins@[0].name@ == "VDD"@
                &&& pins@[0].function@ == "Power supply"@
                &&& pins@[0].type_@ == "power"@
                &&& (pins@[0].voltage matches Some(v) && v@ == "3.3V"@)
            }),
            r.protocols@.len() == 1,
            r.protocols@[0].name@ == "I2C"@,
            r.protocols@[0].max_speed@ == "400kHz"@,
            r.protocols@[0].voltage_levels@ == "3.3V"@,
            r.protocols@[0].notes@ == "7-bit addressing"@,
            (r.timing matches Some(t) && {
                &&& t.clock_frequency@ == "1MHz"@
                &&& t.setup_time@ == "100ns"@
                &&& t.hold_time@ == "50ns"@
                &&& t.rise_time@ == "20ns"@
                &&& t.fall_time@ == "20ns"@
                &&& t.additional@.len() == 0
            }),
            (r.electrical matches Some(e) && {
                &&& e.supply_voltage@ == "3.3V ± 10%"@
                &&& e.current_consumption@ == "10mA active, 1µA sleep"@
                &&& e.operating_temperature@ == "-40°C to +85°C"@
                &&& e.io_voltage@ == "3.3V"@
                &&& e.additional@.len() == 0
            }),
    {
        let mut values: Vec<String> = Vec::new();
        values.push("00: Normal".to_owned());
        values.push("01: Sleep".to_owned());
        let mut bits: Vec<BitField> = Vec::new();
        bits.push(
            BitField {
                bits: "7:6".to_owned(),
                name: "MODE".to_owned(),
                description: "Operating mode".to_owned(),
                values,
            },
        );
        let mut registers: Vec<Register> = Vec::new();
        registers.push(
            Register {
                address: "0x00".to_owned(),
                name: "CONFIG".to_owned(),
                description: "Configuration register".to_owned(),
                bits,
                default_value: "0x00".to_owned(),
                read_write: "RW".to_owned(),
            },
        );
        let mut pinout: Vec<Pin> = Vec::new();
        pinout.push(
            Pin {
                number: 1,
                name: "VDD".to_owned(),
                function: "Power supply".to_owned(),
                type_: "power".to_owned(),
                voltage: Some("3.3V".to_owned()),
            },
        );
        let mut protocols: Vec<Protocol> = Vec::new();
        protocols.push(
            Protocol {
                name: "I2C".to_owned(),
                max_speed: "400kHz".to_owned(),
                voltage_levels: "3.3V".to_owned(),
                notes: "7-bit addressing".to_owned(),
            },
        );
        DatasheetAnalyzerOutput {
            component_info: ComponentInfo {
                manufacturer: "Example Corp".to_owned(),
                part_number: input.component_type.clone(),
                description: "Hardware component from datasheet".to_owned(),
                package_type: "QFN-20".to_owned(),
            },
            registers: Some(registers),
            pinout: Some(pinout),
            protocols,
            timing: Some(
                TimingSpecs {
                    clock_frequency: "1MHz".to_owned(),
                    setup_time: "100ns".to_owned(),
                    hold_time: "50ns".to_owned(),
                    rise_time: "20ns".to_owned(),
                    fall_time: "20ns".to_owned(),
                    additional: Vec::new(),
                },
            ),
            electrical: Some(
                ElectricalSpecs {
                    supply_voltage: "3.3V ± 10%".to_owned(),
                    current_consumption: "10mA active, 1µA sleep".to_owned(),
                    operating_temperature: "-40°C to +85°C".to_owned(),
                    io_voltage: "3.3V".to_owned(),
                    additional: Vec::new(),
                },
            ),
        }
    }
}

} // verus!
