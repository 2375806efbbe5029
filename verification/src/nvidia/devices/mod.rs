//! Temperature sensors, read through NvAPI or the `nvidia-smi` tool.

pub mod gpu_sensor;
pub mod gpu_sensor_common;
pub mod gpu_sensor_linux;
pub mod nvapi_thermal;
pub mod nvidia_smi;
