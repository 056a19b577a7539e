//! Embedded (ESP-class) mining support: device capabilities, mining
//! configuration, memory budgeting, and firmware code generation.

use vstd::prelude::*;
use crate::errors::{TribeError, TribeResult};
use crate::numfmt::{dec_of, u64_to_string};
use crate::tensor::{dims_product, Tensor};

verus! {

use vstd::string::{StringExecFns, StrSliceExecFns};

/// The fixed tail of the generated mining sketch.
pub const MINING_CODE_BODY: &'static str = ";\n\nvoid setup() {\n    Serial.begin(115200);\n    WiFi.begin(ssid);\n    while (WiFi.status() != WL_CONNECTED) {\n        delay(1000);\n    }\n}\n\nvoid loop() {\n    String task = getMiningTask();\n    if (task.length() > 0) {\n        processMiningTask(task);\n    }\n    delay(100 * (11 - mining_intensity));\n}\n\nString getMiningTask() {\n    HTTPClient http;\n    String url = \"http://\" + String(server_address) + \":\" + String(server_port) + \"/api/mining/task\";\n    http.begin(url);\n    int code = http.GET();\n    String response = code == 200 ? http.getString() : \"\";\n    http.end();\n    return response;\n}\n\nbool processMiningTask(String taskJson) {\n    unsigned long startTime = millis();\n    uint64_t nonce = random(0, UINT32_MAX);\n    return submitResult(taskJson, nonce, millis() - startTime);\n}\n\nbool submitResult(String taskId, uint64_t nonce, unsigned long computationTime) {\n    HTTPClient http;\n    String url = \"http://\" + String(server_address) + \":\" + String(server_port) + \"/api/mining/result\";\n    http.begin(url);\n    int code = http.POST(taskId);\n    http.end();\n    return code == 200;\n}\n";

/// The supported device families.
#[derive(Debug, Clone, Copy, PartialEq, Eq, Structural)]
pub enum ESPDeviceType {
    ESP32,
    ESP8266,
    ESP32S2,
    ESP32S3,
    ESP32C3,
}

impl ESPDeviceType {
    /// Usable RAM, in kilobytes.
    pub fn get_memory_limit(&self) -> (r: usize)
        ensures
            r == match self {
                ESPDeviceType::ESP32 => 520int,
                ESPDeviceType::ESP8266 => 80int,
                ESPDeviceType::ESP32S2 => 320int,
                ESPDeviceType::ESP32S3 => 512int,
                ESPDeviceType::ESP32C3 => 400int,
            },
    {
        match self {
            ESPDeviceType::ESP32 => 520,
            ESPDeviceType::ESP8266 => 80,
            ESPDeviceType::ESP32S2 => 320,
            ESPDeviceType::ESP32S3 => 512,
            ESPDeviceType::ESP32C3 => 400,
        }
    }

    /// Clock rate, in megahertz.
    pub fn get_compute_power(&self) -> (r: u64)
        ensures
            r == match self {
                ESPDeviceType::ESP32 => 240int,
                ESPDeviceType::ESP8266 => 80int,
                ESPDeviceType::ESP32S2 => 240int,
                ESPDeviceType::ESP32S3 => 240int,
                ESPDeviceType::ESP32C3 => 160int,
            },
    {
        match self {
            ESPDeviceType::ESP32 => 240,
            ESPDeviceType::ESP8266 => 80,
            ESPDeviceType::ESP32S2 => 240,
            ESPDeviceType::ESP32S3 => 240,
            ESPDeviceType::ESP32C3 => 160,
        }
    }

    /// Whether the family has a usable hardware floating-point unit.
    pub fn supports_floating_point(&self) -> (r: bool)
        ensures
            r == !(self is ESP8266),
    {
        match self {
            ESPDeviceType::ESP8266 => false,
            _ => true,
        }
    }
}

/// Mining configuration handed to a device.
#[derive(Debug, Clone)]
pub struct ESPMiningConfig {
    pub device_type: ESPDeviceType,
    pub max_memory_kb: usize,
    pub clock_speed_mhz: u32,
    pub wifi_ssid: String,
    pub server_address: String,
    pub server_port: u16,
    pub mining_intensity: u8,
    pub power_save_mode: bool,
}

impl Default for ESPMiningConfig {
    /// The stock configuration for a full-size device.
    fn default() -> (r: Self)
        ensures
            r.device_type is ESP32,
            r.max_memory_kb == 520,
            r.clock_speed_mhz == 240,
            r.wifi_ssid@ == "TribeChain_Network"@,
            r.server_address@ == "192.168.1.100"@,
            r.server_port == 8080,
            r.mining_intensity == 5,
            !r.power_save_mode,
    {
        ESPMiningConfig {
            device_type: ESPDeviceType::ESP32,
            max_memory_kb: 520,
            clock_speed_mhz: 240,
            wifi_ssid: String::from_str("TribeChain_Network"),
            server_address: String::from_str("192.168.1.100"),
            server_port: 8080,
            mining_intensity: 5,
            power_save_mode: false,
        }
    }
}

/// Connection state of a device to its pool server.
#[derive(Debug, Clone)]
pub enum ConnectionStatus {
    Disconnected,
    Connecting,
    Connected,
    Error(String),
}

/// Device-specific failures.
#[derive(Debug, Clone)]
pub enum ESPError {
    InsufficientMemory(String),
    UnsupportedOperation(String),
    DeviceNotSupported(String),
    ConfigurationError(String),
    ConnectionError(String),
}

/// A device family's limits and recommendations.
#[derive(Debug, Clone)]
pub struct DeviceInfo {
    pub device_type: ESPDeviceType,
    pub memory_limit_kb: usize,
    pub compute_power_mhz: u64,
    pub supports_floating_point: bool,
    pub recommended_operations: Vec<String>,
    pub limitations: Vec<String>,
}

/// Memory-budget helpers for tensors on constrained devices.
#[derive(Debug, Clone)]
pub struct ESPTensorUtils;

impl ESPTensorUtils {
    /// Bytes a tensor's elements occupy (four bytes per element),
    /// saturating at the machine word.
    pub fn tensor_memory_usage(tensor: &Tensor) -> (r: usize)
        ensures
            4 * dims_product(tensor.shape.dimensions@) <= usize::MAX ==> r == 4 * dims_product(
                tensor.shape.dimensions@,
            ),
    {
        let elems = tensor.shape.total_elements();
        match elems.checked_mul(4) {
            Some(b) => b,
            None => usize::MAX,
        }
    }

    /// Whether a tensor fits in three quarters of a device's memory.
    pub fn tensor_fits_in_memory(tensor: &Tensor, device_type: &ESPDeviceType) -> (r: bool)
        requires
            4 * dims_product(tensor.shape.dimensions@) <= usize::MAX,
        ensures
            r == (4 * dims_product(tensor.shape.dimensions@) <= device_type.spec_memory_limit()
                * 1024 * 3 / 4),
    {
        let usage = Self::tensor_memory_usage(tensor);
        let limit = device_type.get_memory_limit() * 1024 * 3 / 4;
        usage <= limit
    }
}

impl ESPDeviceType {
    /// Usable RAM, in kilobytes, at the specification level.
    pub open spec fn spec_memory_limit(&self) -> int {
        match self {
            ESPDeviceType::ESP32 => 520int,
            ESPDeviceType::ESP8266 => 80int,
            ESPDeviceType::ESP32S2 => 320int,
            ESPDeviceType::ESP32S3 => 512int,
            ESPDeviceType::ESP32C3 => 400int,
        }
    }
}

/// The Arduino mining sketch for a configuration, as text.
pub open spec fn spec_mining_code(config: &ESPMiningConfig) -> Seq<char> {
    "#include <WiFi.h>\n#include <HTTPClient.h>\n\nconst char* ssid = \""@
        + config.wifi_ssid@ + "\";\nconst char* server_address = \""@ + config.server_address@
        + "\";\nconst int server_port = "@ + dec_of(config.server_port as nat)
        + ";\nconst int mining_intensity = "@ + dec_of(config.mining_intensity as nat)
        + ";\nconst bool power_save_mode = "@ + (if config.power_save_mode {
        "true"@
    } else {
        "false"@
    }) + MINING_CODE_BODY@
}

/// Firmware source generation for the devices.
#[derive(Debug, Clone)]
pub struct ESPCodeGenerator;

impl ESPCodeGenerator {
    /// The Arduino mining sketch for a configuration: WiFi setup, the poll
    /// loop, and the task fetch, process and submit routines.
    pub fn generate_mining_code(config: &ESPMiningConfig) -> (r: String)
        ensures
            r@ == spec_mining_code(config),
    {
        let mut s = String::from_str(
            "#include <WiFi.h>\n#include <HTTPClient.h>\n\nconst char* ssid = \"",
        );
        s.append(config.wifi_ssid.as_str());
        s.append("\";\nconst char* server_address = \"");
        s.append(config.server_address.as_str());
        s.append("\";\nconst int server_port = ");
        s.append(u64_to_string(config.server_port as u64).as_str());
        s.append(";\nconst int mining_intensity = ");
        s.append(u64_to_string(config.mining_intensity as u64).as_str());
        s.append(";\nconst bool power_save_mode = ");
        if config.power_save_mode {
            s.append("true");
        } else {
            s.append("false");
        }
        s.append(MINING_CODE_BODY);
        proof {
            assert(s@ =~= spec_mining_code(config));
        }
        s
    }

    /// The C tensor kernels for the devices, including the fixed-point
    /// fallback used where no floating-point unit exists.
    pub fn generate_tensor_operations() -> (r: String)
        ensures
            r@ == spec_tensor_code(),
    {
        String::from_str(
            "// Tensor operations for embedded devices\n\nstruct Tensor {\n    float* data;\n    int* shape;\n    int rank;\n    int total_elements;\n};\n\nTensor* createTensor(float* data, int* shape, int rank) {\n    Tensor* tensor = (Tensor*)malloc(sizeof(Tensor));\n    int total = 1;\n    for (int i = 0; i < rank; i++) {\n        total *= shape[i];\n    }\n    tensor->data = (float*)malloc(total * sizeof(float));\n    tensor->shape = (int*)malloc(rank * sizeof(int));\n    tensor->rank = rank;\n    tensor->total_elements = total;\n    memcpy(tensor->data, data, total * sizeof(float));\n    memcpy(tensor->shape, shape, rank * sizeof(int));\n    return tensor;\n}\n\nvoid freeTensor(Tensor* tensor) {\n    if (tensor) {\n        free(tensor->data);\n        free(tensor->shape);\n        free(tensor);\n    }\n}\n\nvoid relu_esp(Tensor* input, Tensor* output) {\n    for (int i = 0; i < input->total_elements; i++) {\n        output->data[i] = fmax(0.0f, input->data[i]);\n    }\n}\n\nvoid vector_add_esp(Tensor* a, Tensor* b, Tensor* result) {\n    for (int i = 0; i < a->total_elements; i++) {\n        result->data[i] = a->data[i] + b->data[i];\n    }\n}\n\nfloat dot_product_esp(Tensor* a, Tensor* b) {\n    float result = 0.0f;\n    for (int i = 0; i < a->total_elements; i++) {\n        result += a->data[i] * b->data[i];\n    }\n    return result;\n}\n\nvoid matrix_multiply_esp(Tensor* a, Tensor* b, Tensor* result) {\n    int a_rows = a->shape[0];\n    int a_cols = a->shape[1];\n    int b_cols = b->shape[1];\n    for (int i = 0; i < a_rows; i++) {\n        for (int j = 0; j < b_cols; j++) {\n            float sum = 0.0f;\n            for (int k = 0; k < a_cols; k++) {\n                sum += a->data[i * a_cols + k] * b->data[k * b_cols + j];\n            }\n            result->data[i * b_cols + j] = sum;\n        }\n    }\n}\n\ntypedef int16_t fixed_t;\n\nfixed_t float_to_fixed(float f) {\n    return (fixed_t)(f * 256.0f);\n}\n\nfloat fixed_to_float(fixed_t f) {\n    return (float)f / 256.0f;\n}\n",
        )
    }
}

/// The C tensor kernels for the devices, as text.
pub open spec fn spec_tensor_code() -> Seq<char> {
    "// Tensor operations for embedded devices\n\nstruct Tensor {\n    float* data;\n    int* shape;\n    int rank;\n    int total_elements;\n};\n\nTensor* createTensor(float* data, int* shape, int rank) {\n    Tensor* tensor = (Tensor*)malloc(sizeof(Tensor));\n    int total = 1;\n    for (int i = 0; i < rank; i++) {\n        total *= shape[i];\n    }\n    tensor->data = (float*)malloc(total * sizeof(float));\n    tensor->shape = (int*)malloc(rank * sizeof(int));\n    tensor->rank = rank;\n    tensor->total_elements = total;\n    memcpy(tensor->data, data, total * sizeof(float));\n    memcpy(tensor->shape, shape, rank * sizeof(int));\n    return tensor;\n}\n\nvoid freeTensor(Tensor* tensor) {\n    if (tensor) {\n        free(tensor->data);\n        free(tensor->shape);\n        free(tensor);\n    }\n}\n\nvoid relu_esp(Tensor* input, Tensor* output) {\n    for (int i = 0; i < input->total_elements; i++) {\n        output->data[i] = fmax(0.0f, input->data[i]);\n    }\n}\n\nvoid vector_add_esp(Tensor* a, Tensor* b, Tensor* result) {\n    for (int i = 0; i < a->total_elements; i++) {\n        result->data[i] = a->data[i] + b->data[i];\n    }\n}\n\nfloat dot_product_esp(Tensor* a, Tensor* b) {\n    float result = 0.0f;\n    for (int i = 0; i < a->total_elements; i++) {\n        result += a->data[i] * b->data[i];\n    }\n    return result;\n}\n\nvoid matrix_multiply_esp(Tensor* a, Tensor* b, Tensor* result) {\n    int a_rows = a->shape[0];\n    int a_cols = a->shape[1];\n    int b_cols = b->shape[1];\n    for (int i = 0; i < a_rows; i++) {\n        for (int j = 0; j < b_cols; j++) {\n            float sum = 0.0f;\n            for (int k = 0; k < a_cols; k++) {\n                sum += a->data[i * a_cols + k] * b->data[k * b_cols + j];\n            }\n            result->data[i * b_cols + j] = sum;\n        }\n    }\n}\n\ntypedef int16_t fixed_t;\n\nfixed_t float_to_fixed(float f) {\n    return (fixed_t)(f * 256.0f);\n}\n\nfloat fixed_to_float(fixed_t f) {\n    return (float)f / 256.0f;\n}\n"@
}

/// The device-facing facade.
#[derive(Debug, Clone)]
pub struct ESPCompatibility;

impl ESPCompatibility {
    /// The Arduino mining sketch for a configuration.
    pub fn generate_mining_code(config: &ESPMiningConfig) -> (r: String)
        ensures
            r@ == spec_mining_code(config),
    {
        ESPCodeGenerator::generate_mining_code(config)
    }

    /// The C tensor kernels for the devices.
    pub fn generate_tensor_operations() -> (r: String)
        ensures
            r@ == spec_tensor_code(),
    {
        ESPCodeGenerator::generate_tensor_operations()
    }

    /// The stock configuration tuned to a device family.
    pub fn get_recommended_config(device_type: ESPDeviceType) -> (r: ESPMiningConfig)
        ensures
            r.device_type == device_type,
            r.max_memory_kb == device_type.spec_memory_limit(),
            r.mining_intensity == match device_type {
                ESPDeviceType::ESP8266 => 3int,
                ESPDeviceType::ESP32 => 5int,
                ESPDeviceType::ESP32S2 => 6int,
                ESPDeviceType::ESP32S3 => 7int,
                ESPDeviceType::ESP32C3 => 4int,
            },
            r.power_save_mode == (device_type is ESP8266),
    {
        let mut config = ESPMiningConfig::default();
        config.max_memory_kb = device_type.get_memory_limit();
        config.clock_speed_mhz = device_type.get_compute_power() as u32;
        match device_type {
            ESPDeviceType::ESP8266 => {
                config.mining_intensity = 3;
                config.power_save_mode = true;
            },
            ESPDeviceType::ESP32 => {
                config.mining_intensity = 5;
                config.power_save_mode = false;
            },
            ESPDeviceType::ESP32S2 => {
                config.mining_intensity = 6;
                config.power_save_mode = false;
            },
            ESPDeviceType::ESP32S3 => {
                config.mining_intensity = 7;
                config.power_save_mode = false;
            },
            ESPDeviceType::ESP32C3 => {
                config.mining_intensity = 4;
                config.power_save_mode = false;
            },
        }
        config.device_type = device_type;
        config
    }

    /// A device family's limits and recommendations.
    pub fn get_device_info(device_type: &ESPDeviceType) -> (r: DeviceInfo)
        ensures
            r.device_type == *device_type,
            r.memory_limit_kb == device_type.spec_memory_limit(),
            r.supports_floating_point == !(device_type is ESP8266),
    {
        DeviceInfo {
            device_type: device_type.clone(),
            memory_limit_kb: device_type.get_memory_limit(),
            compute_power_mhz: device_type.get_compute_power(),
            supports_floating_point: device_type.supports_floating_point(),
            recommended_operations: Self::get_recommended_operations(device_type),
            limitations: Self::get_device_limitations(device_type),
        }
    }

    /// The operations a device family handles comfortably.
    fn get_recommended_operations(device_type: &ESPDeviceType) -> (r: Vec<String>)
        ensures
            r@.len() >= 4,
    {
        let mut operations: Vec<String> = Vec::new();
        operations.push(String::from_str("relu"));
        operations.push(String::from_str("sigmoid"));
        operations.push(String::from_str("dot_product"));
        operations.push(String::from_str("vector_add"));
        if device_type.supports_floating_point() && device_type.get_memory_limit() > 100 {
            operations.push(String::from_str("matrix_multiply"));
            operations.push(String::from_str("convolution"));
            operations.push(String::from_str("softmax"));
        }
        operations
    }

    /// The device family's limitations, in words.
    fn get_device_limitations(device_type: &ESPDeviceType) -> (r: Vec<String>)
    {
        let mut limitations: Vec<String> = Vec::new();
        if device_type.get_memory_limit() < 100 {
            limitations.push(String::from_str("limited memory: avoid large tensors"));
        }
        if !device_type.supports_floating_point() {
            limitations.push(String::from_str(
                "no hardware floating point: use fixed-point arithmetic",
            ));
        }
        if device_type.get_compute_power() < 100 {
            limitations.push(String::from_str("limited compute power: prefer simple operations"));
        }
        limitations
    }
}

/// Compiler flags for a device family's toolchain.
pub fn get_compiler_flags(device_type: &ESPDeviceType) -> (r: Vec<String>)
    ensures
        r@.len() >= 4,
{
    let mut flags: Vec<String> = Vec::new();
    flags.push(String::from_str("-Os"));
    flags.push(String::from_str("-ffunction-sections"));
    flags.push(String::from_str("-fdata-sections"));
    match device_type {
        ESPDeviceType::ESP8266 => {
            flags.push(String::from_str("-DESP8266"));
            flags.push(String::from_str("-mno-serialize-volatile"));
        },
        ESPDeviceType::ESP32 => {
            flags.push(String::from_str("-DESP32"));
            flags.push(String::from_str("-mfix-esp32-psram-cache-issue"));
        },
        ESPDeviceType::ESP32S2 => {
            flags.push(String::from_str("-DESP32S2"));
        },
        ESPDeviceType::ESP32S3 => {
            flags.push(String::from_str("-DESP32S3"));
        },
        ESPDeviceType::ESP32C3 => {
            flags.push(String::from_str("-DESP32C3"));
            flags.push(String::from_str("-march=rv32imc"));
        },
    }
    flags
}

/// Linker-script guidance for a device family.
pub fn get_linker_recommendations(device_type: &ESPDeviceType) -> (r: String)
    ensures
        r@ == match device_type {
            ESPDeviceType::ESP8266 => "Use eagle.flash.4m1m.ld for 4MB flash with 1MB SPIFFS"@,
            ESPDeviceType::ESP32 => "Use esp32.common.ld with appropriate partition table"@,
            ESPDeviceType::ESP32S2 => "Use esp32s2.common.ld with USB CDC support"@,
            ESPDeviceType::ESP32S3 => "Use esp32s3.common.ld with PSRAM support if available"@,
            ESPDeviceType::ESP32C3 => "Use esp32c3.common.ld with RISC-V optimizations"@,
        },
{
    match device_type {
        ESPDeviceType::ESP8266 => String::from_str(
            "Use eagle.flash.4m1m.ld for 4MB flash with 1MB SPIFFS",
        ),
        ESPDeviceType::ESP32 => String::from_str(
            "Use esp32.common.ld with appropriate partition table",
        ),
        ESPDeviceType::ESP32S2 => String::from_str("Use esp32s2.common.ld with USB CDC support"),
        ESPDeviceType::ESP32S3 => String::from_str(
            "Use esp32s3.common.ld with PSRAM support if available",
        ),
        ESPDeviceType::ESP32C3 => String::from_str(
            "Use esp32c3.common.ld with RISC-V optimizations",
        ),
    }
}

} // verus!
