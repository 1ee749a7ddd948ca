pub mod manager;
pub mod network_device;
pub mod protocols;
pub mod url;

pub use manager::{NetworkManager, NetworkManagerImpl};
pub use network_device::{NetworkDevice, NetworkDeviceImpl};
pub use url::NetworkUrl;
