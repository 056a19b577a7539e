//! Device capabilities, mining configuration and firmware generation.

use tribechain::esp::{ESPCodeGenerator, ESPCompatibility, ESPDeviceType, ESPMiningConfig};

#[test]
fn test_esp_device_capabilities() {
    let esp32 = ESPDeviceType::ESP32;
    let esp8266 = ESPDeviceType::ESP8266;

    assert!(esp32.get_memory_limit() > esp8266.get_memory_limit());
    assert!(esp32.get_compute_power() > esp8266.get_compute_power());
    assert!(esp32.supports_floating_point());
    assert!(!esp8266.supports_floating_point());
}

#[test]
fn test_esp_device_types() {
    let esp32 = ESPDeviceType::ESP32;
    assert_eq!(esp32.get_memory_limit(), 520);
    assert_eq!(esp32.get_compute_power(), 240);
    assert!(esp32.supports_floating_point());

    let esp8266 = ESPDeviceType::ESP8266;
    assert_eq!(esp8266.get_memory_limit(), 80);
    assert_eq!(esp8266.get_compute_power(), 80);
    assert!(!esp8266.supports_floating_point());

    let esp32_s3 = ESPDeviceType::ESP32S3;
    assert_eq!(esp32_s3.get_memory_limit(), 512);
    assert_eq!(esp32_s3.get_compute_power(), 240);
    assert!(esp32_s3.supports_floating_point());
}

#[test]
fn test_esp_mining_config() {
    let config = ESPMiningConfig::default();
    assert_eq!(config.device_type, ESPDeviceType::ESP32);
    assert_eq!(config.max_memory_kb, 520);
    assert_eq!(config.clock_speed_mhz, 240);
    assert_eq!(config.wifi_ssid, "TribeChain_Network");
    assert_eq!(config.server_address, "192.168.1.100");
    assert_eq!(config.server_port, 8080);
    assert_eq!(config.mining_intensity, 5);
    assert!(!config.power_save_mode);
}

#[test]
fn test_esp_code_generation() {
    let config = ESPMiningConfig::default();
    let code = ESPCodeGenerator::generate_mining_code(&config);

    assert!(code.contains("WiFi.h"));
    assert!(code.contains("HTTPClient.h"));
    assert!(code.contains("TribeChain_Network"));
    assert!(code.contains("192.168.1.100"));
    assert!(code.contains("8080"));
    assert!(code.contains("void setup()"));
    assert!(code.contains("void loop()"));
    assert!(code.contains("getMiningTask()"));
    assert!(code.contains("processMiningTask"));
    assert!(code.contains("submitResult"));
}

#[test]
fn test_esp_tensor_operations_code() {
    let code = ESPCodeGenerator::generate_tensor_operations();

    assert!(code.contains("struct Tensor"));
    assert!(code.contains("createTensor"));
    assert!(code.contains("freeTensor"));
    assert!(code.contains("relu_esp"));
    assert!(code.contains("vector_add_esp"));
    assert!(code.contains("dot_product_esp"));
    assert!(code.contains("matrix_multiply_esp"));
    assert!(code.contains("fixed_t"));
    assert!(code.contains("float_to_fixed"));
    assert!(code.contains("fixed_to_float"));
}

#[test]
fn test_recommended_config_follows_device() {
    let config = ESPCompatibility::get_recommended_config(ESPDeviceType::ESP8266);
    assert_eq!(config.device_type, ESPDeviceType::ESP8266);
    assert_eq!(config.max_memory_kb, 80);
    assert_eq!(config.mining_intensity, 3);
    assert!(config.power_save_mode);
}

#[test]
fn test_device_info_reports_limits() {
    let info = ESPCompatibility::get_device_info(&ESPDeviceType::ESP32C3);
    assert_eq!(info.memory_limit_kb, 400);
    assert_eq!(info.compute_power_mhz, 160);
    assert!(info.supports_floating_point);
}

#[test]
fn test_compiler_flags_name_the_device() {
    let flags = tribechain::esp::get_compiler_flags(&ESPDeviceType::ESP32);
    assert!(flags.iter().any(|f| f == "-DESP32"));
    let linker = tribechain::esp::get_linker_recommendations(&ESPDeviceType::ESP8266);
    assert!(linker.contains("eagle.flash.4m1m.ld"));
}
