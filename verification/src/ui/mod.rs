pub mod toast;

pub use toast::Rect;
pub use toast::ToastMessage;
pub use toast::ToastPosition;
pub use toast::ToastType;
pub use toast::UI;
