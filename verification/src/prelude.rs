//! One-stop imports for applications using the library.
//!
//! The icon table is exported here as `LvglIcon`, beside the icon widget of
//! the same original name.

pub use crate::assets::LvglColor;
pub use crate::assets::LvglFont;
pub use crate::assets::LvglMkFont;
pub use crate::assets::LvglPalette;
pub use crate::assets::LvglPixmap as LvglIcon;
pub use crate::core_widgets::LvglArc;
pub use crate::core_widgets::LvglArea;
pub use crate::core_widgets::LvglBar;
pub use crate::core_widgets::LvglButton;
pub use crate::core_widgets::LvglImage;
pub use crate::core_widgets::LvglLabel;
pub use crate::core_widgets::LvglLed;
pub use crate::core_widgets::LvglLine;
pub use crate::core_widgets::LvglPixButton;
pub use crate::core_widgets::LvglPixmap;
pub use crate::core_widgets::PixmapSource;
pub use crate::core_widgets::LvglSwitch;
pub use crate::core_widgets::LvglTextArea;
pub use crate::display::LvglHandle;
pub use crate::display::LvglTheme;
pub use crate::events::LvglEvent;
pub use crate::events::LvglState;
pub use crate::events::LvglStates;
pub use crate::extra_widgets::LvglMeter;
pub use crate::extra_widgets::LvglQrcode;
pub use crate::generic::LvglHandler;
pub use crate::generic::LvglImgDsc;
pub use crate::generic::LvglNotice;
pub use crate::generic::LvglPoint;
pub use crate::generic::LvglWidget;
pub use crate::generic::lvgl_events_cb;
pub use crate::widget::LvglCommon;
pub use crate::widget::LvglMethod;
