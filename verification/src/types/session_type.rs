use vstd::prelude::*;

verus! {

use crate::types::td_type::opt_str_view;
use crate::utils::fresh_request_extra;

/// Represents the type of a session
pub trait TDSessionType {}

/// Represents the type of a session
#[derive(Debug, Clone, PartialEq)]
pub enum SessionType {
    _Default,
    /// The session is running on an Android device
    Android(SessionTypeAndroid),
    /// The session is running on a generic Apple device
    Apple(SessionTypeApple),
    /// The session is running on the Brave browser
    Brave(SessionTypeBrave),
    /// The session is running on the Chrome browser
    Chrome(SessionTypeChrome),
    /// The session is running on the Edge browser
    Edge(SessionTypeEdge),
    /// The session is running on the Firefox browser
    Firefox(SessionTypeFirefox),
    /// The session is running on an iPad device
    Ipad(SessionTypeIpad),
    /// The session is running on an iPhone device
    Iphone(SessionTypeIphone),
    /// The session is running on a Linux device
    Linux(SessionTypeLinux),
    /// The session is running on a Mac device
    Mac(SessionTypeMac),
    /// The session is running on the Opera browser
    Opera(SessionTypeOpera),
    /// The session is running on the Safari browser
    Safari(SessionTypeSafari),
    /// The session is running on an Ubuntu device
    Ubuntu(SessionTypeUbuntu),
    /// The session is running on an unknown type of device
    Unknown(SessionTypeUnknown),
    /// The session is running on the Vivaldi browser
    Vivaldi(SessionTypeVivaldi),
    /// The session is running on a Windows device
    Windows(SessionTypeWindows),
    /// The session is running on an Xbox console
    Xbox(SessionTypeXbox),
}

impl Default for SessionType {
    fn default() -> (r: Self)
        ensures
            r is _Default,
    {
        SessionType::_Default
    }
}

impl SessionType {
    pub fn _is_default(&self) -> (r: bool)
        ensures
            r == (self is _Default),
    {
        matches!(self, SessionType::_Default)
    }
}

/// The session is running on an Android device
#[derive(Debug, Clone, PartialEq)]
pub struct SessionTypeAndroid {
    pub extra: Option<String>,
    pub client_id: Option<i32>,
}

impl SessionTypeAndroid {
    pub fn builder() -> (r: RTDSessionTypeAndroidBuilder)
        ensures
            r.inner.extra is Some,
            r.inner.extra->0@.len() == 36,
            r.inner.client_id is None,
    {
        let inner = SessionTypeAndroid {
            extra: Some(fresh_request_extra()),
            client_id: None,
        };
        RTDSessionTypeAndroidBuilder { inner }
    }
}

pub struct RTDSessionTypeAndroidBuilder {
    pub inner: SessionTypeAndroid,
}

impl RTDSessionTypeAndroidBuilder {
    pub fn build(self) -> (r: SessionTypeAndroid)
        ensures
            r == self.inner,
    {
        self.inner
    }
}

/// The session is running on a generic Apple device
#[derive(Debug, Clone, PartialEq)]
pub struct SessionTypeApple {
    pub extra: Option<String>,
    pub client_id: Option<i32>,
}

impl SessionTypeApple {
    pub fn builder() -> (r: RTDSessionTypeAppleBuilder)
        ensures
            r.inner.extra is Some,
            r.inner.extra->0@.len() == 36,
            r.inner.client_id is None,
    {
        let inner = SessionTypeApple {
            extra: Some(fresh_request_extra()),
            client_id: None,
        };
        RTDSessionTypeAppleBuilder { inner }
    }
}

pub struct RTDSessionTypeAppleBuilder {
    pub inner: SessionTypeApple,
}

impl RTDSessionTypeAppleBuilder {
    pub fn build(self) -> (r: SessionTypeApple)
        ensures
            r == self.inner,
    {
        self.inner
    }
}

/// The session is running on the Brave browser
#[derive(Debug, Clone, PartialEq)]
pub struct SessionTypeBrave {
    pub extra: Option<String>,
    pub client_id: Option<i32>,
}

impl SessionTypeBrave {
    pub fn builder() -> (r: RTDSessionTypeBraveBuilder)
        ensures
            r.inner.extra is Some,
            r.inner.extra->0@.len() == 36,
            r.inner.client_id is None,
    {
        let inner = SessionTypeBrave {
            extra: Some(fresh_request_extra()),
            client_id: None,
        };
        RTDSessionTypeBraveBuilder { inner }
    }
}

pub struct RTDSessionTypeBraveBuilder {
    pub inner: SessionTypeBrave,
}

impl RTDSessionTypeBraveBuilder {
    pub fn build(self) -> (r: SessionTypeBrave)
        ensures
            r == self.inner,
    {
        self.inner
    }
}

/// The session is running on the Chrome browser
#[derive(Debug, Clone, PartialEq)]
pub struct SessionTypeChrome {
    pub extra: Option<String>,
    pub client_id: Option<i32>,
}

impl SessionTypeChrome {
    pub fn builder() -> (r: RTDSessionTypeChromeBuilder)
        ensures
            r.inner.extra is Some,
            r.inner.extra->0@.len() == 36,
            r.inner.client_id is None,
    {
        let inner = SessionTypeChrome {
            extra: Some(fresh_request_extra()),
            client_id: None,
        };
        RTDSessionTypeChromeBuilder { inner }
    }
}

pub struct RTDSessionTypeChromeBuilder {
    pub inner: SessionTypeChrome,
}

impl RTDSessionTypeChromeBuilder {
    pub fn build(self) -> (r: SessionTypeChrome)
        ensures
            r == self.inner,
    {
        self.inner
    }
}

/// The session is running on the Edge browser
#[derive(Debug, Clone, PartialEq)]
pub struct SessionTypeEdge {
    pub extra: Option<String>,
    pub client_id: Option<i32>,
}

impl SessionTypeEdge {
    pub fn builder() -> (r: RTDSessionTypeEdgeBuilder)
        ensures
            r.inner.extra is Some,
            r.inner.extra->0@.len() == 36,
            r.inner.client_id is None,
    {
        let inner = SessionTypeEdge {
            extra: Some(fresh_request_extra()),
            client_id: None,
        };
        RTDSessionTypeEdgeBuilder { inner }
    }
}

pub struct RTDSessionTypeEdgeBuilder {
    pub inner: SessionTypeEdge,
}

impl RTDSessionTypeEdgeBuilder {
    pub fn build(self) -> (r: SessionTypeEdge)
        ensures
            r == self.inner,
    {
        self.inner
    }
}

/// The session is running on the Firefox browser
#[derive(Debug, Clone, PartialEq)]
pub struct SessionTypeFirefox {
    pub extra: Option<String>,
    pub client_id: Option<i32>,
}

impl SessionTypeFirefox {
    pub fn builder() -> (r: RTDSessionTypeFirefoxBuilder)
        ensures
            r.inner.extra is Some,
            r.inner.extra->0@.len() == 36,
            r.inner.client_id is None,
    {
        let inner = SessionTypeFirefox {
            extra: Some(fresh_request_extra()),
            client_id: None,
        };
        RTDSessionTypeFirefoxBuilder { inner }
    }
}

pub struct RTDSessionTypeFirefoxBuilder {
    pub inner: SessionTypeFirefox,
}

impl RTDSessionTypeFirefoxBuilder {
    pub fn build(self) -> (r: SessionTypeFirefox)
        ensures
            r == self.inner,
    {
        self.inner
    }
}

/// The session is running on an iPad device
#[derive(Debug, Clone, PartialEq)]
pub struct SessionTypeIpad {
    pub extra: Option<String>,
    pub client_id: Option<i32>,
}

impl SessionTypeIpad {
    pub fn builder() -> (r: RTDSessionTypeIpadBuilder)
        ensures
            r.inner.extra is Some,
            r.inner.extra->0@.len() == 36,
            r.inner.client_id is None,
    {
        let inner = SessionTypeIpad {
            extra: Some(fresh_request_extra()),
            client_id: None,
        };
        RTDSessionTypeIpadBuilder { inner }
    }
}

pub struct RTDSessionTypeIpadBuilder {
    pub inner: SessionTypeIpad,
}

impl RTDSessionTypeIpadBuilder {
    pub fn build(self) -> (r: SessionTypeIpad)
        ensures
            r == self.inner,
    {
        self.inner
    }
}

/// The session is running on an iPhone device
#[derive(Debug, Clone, PartialEq)]
pub struct SessionTypeIphone {
    pub extra: Option<String>,
    pub client_id: Option<i32>,
}

impl SessionTypeIphone {
    pub fn builder() -> (r: RTDSessionTypeIphoneBuilder)
        ensures
            r.inner.extra is Some,
            r.inner.extra->0@.len() == 36,
            r.inner.client_id is None,
    {
        let inner = SessionTypeIphone {
            extra: Some(fresh_request_extra()),
            client_id: None,
        };
        RTDSessionTypeIphoneBuilder { inner }
    }
}

pub struct RTDSessionTypeIphoneBuilder {
    pub inner: SessionTypeIphone,
}

impl RTDSessionTypeIphoneBuilder {
    pub fn build(self) -> (r: SessionTypeIphone)
        ensures
            r == self.inner,
    {
        self.inner
    }
}

/// The session is running on a Linux device
#[derive(Debug, Clone, PartialEq)]
pub struct SessionTypeLinux {
    pub extra: Option<String>,
    pub client_id: Option<i32>,
}

impl SessionTypeLinux {
    pub fn builder() -> (r: RTDSessionTypeLinuxBuilder)
        ensures
            r.inner.extra is Some,
            r.inner.extra->0@.len() == 36,
            r.inner.client_id is None,
    {
        let inner = SessionTypeLinux {
            extra: Some(fresh_request_extra()),
            client_id: None,
        };
        RTDSessionTypeLinuxBuilder { inner }
    }
}

pub struct RTDSessionTypeLinuxBuilder {
    pub inner: SessionTypeLinux,
}

impl RTDSessionTypeLinuxBuilder {
    pub fn build(self) -> (r: SessionTypeLinux)
        ensures
            r == self.inner,
    {
        self.inner
    }
}

/// The session is running on a Mac device
#[derive(Debug, Clone, PartialEq)]
pub struct SessionTypeMac {
    pub extra: Option<String>,
    pub client_id: Option<i32>,
}

impl SessionTypeMac {
    pub fn builder() -> (r: RTDSessionTypeMacBuilder)
        ensures
            r.inner.extra is Some,
            r.inner.extra->0@.len() == 36,
            r.inner.client_id is None,
    {
        let inner = SessionTypeMac {
            extra: Some(fresh_request_extra()),
            client_id: None,
        };
        RTDSessionTypeMacBuilder { inner }
    }
}

pub struct RTDSessionTypeMacBuilder {
    pub inner: SessionTypeMac,
}

impl RTDSessionTypeMacBuilder {
    pub fn build(self) -> (r: SessionTypeMac)
        ensures
            r == self.inner,
    {
        self.inner
    }
}

/// The session is running on the Opera browser
#[derive(Debug, Clone, PartialEq)]
pub struct SessionTypeOpera {
    pub extra: Option<String>,
    pub client_id: Option<i32>,
}

impl SessionTypeOpera {
    pub fn builder() -> (r: RTDSessionTypeOperaBuilder)
        ensures
            r.inner.extra is Some,
            r.inner.extra->0@.len() == 36,
            r.inner.client_id is None,
    {
        let inner = SessionTypeOpera {
            extra: Some(fresh_request_extra()),
            client_id: None,
        };
        RTDSessionTypeOperaBuilder { inner }
    }
}

pub struct RTDSessionTypeOperaBuilder {
    pub inner: SessionTypeOpera,
}

impl RTDSessionTypeOperaBuilder {
    pub fn build(self) -> (r: SessionTypeOpera)
        ensures
            r == self.inner,
    {
        self.inner
    }
}

/// The session is running on the Safari browser
#[derive(Debug, Clone, PartialEq)]
pub struct SessionTypeSafari {
    pub extra: Option<String>,
    pub client_id: Option<i32>,
}

impl SessionTypeSafari {
    pub fn builder() -> (r: RTDSessionTypeSafariBuilder)
        ensures
            r.inner.extra is Some,
            r.inner.extra->0@.len() == 36,
            r.inner.client_id is None,
    {
        let inner = SessionTypeSafari {
            extra: Some(fresh_request_extra()),
            client_id: None,
        };
        RTDSessionTypeSafariBuilder { inner }
    }
}

pub struct RTDSessionTypeSafariBuilder {
    pub inner: SessionTypeSafari,
}

impl RTDSessionTypeSafariBuilder {
    pub fn build(self) -> (r: SessionTypeSafari)
        ensures
            r == self.inner,
    {
        self.inner
    }
}

/// The session is running on an Ubuntu device
#[derive(Debug, Clone, PartialEq)]
pub struct SessionTypeUbuntu {
    pub extra: Option<String>,
    pub client_id: Option<i32>,
}

impl SessionTypeUbuntu {
    pub fn builder() -> (r: RTDSessionTypeUbuntuBuilder)
        ensures
            r.inner.extra is Some,
            r.inner.extra->0@.len() == 36,
            r.inner.client_id is None,
    {
        let inner = SessionTypeUbuntu {
            extra: Some(fresh_request_extra()),
            client_id: None,
        };
        RTDSessionTypeUbuntuBuilder { inner }
    }
}

pub struct RTDSessionTypeUbuntuBuilder {
    pub inner: SessionTypeUbuntu,
}

impl RTDSessionTypeUbuntuBuilder {
    pub fn build(self) -> (r: SessionTypeUbuntu)
        ensures
            r == self.inner,
    {
        self.inner
    }
}

/// The session is running on an unknown type of device
#[derive(Debug, Clone, PartialEq)]
pub struct SessionTypeUnknown {
    pub extra: Option<String>,
    pub client_id: Option<i32>,
}

impl SessionTypeUnknown {
    pub fn builder() -> (r: RTDSessionTypeUnknownBuilder)
        ensures
            r.inner.extra is Some,
            r.inner.extra->0@.len() == 36,
            r.inner.client_id is None,
    {
        let inner = SessionTypeUnknown {
            extra: Some(fresh_request_extra()),
            client_id: None,
        };
        RTDSessionTypeUnknownBuilder { inner }
    }
}

pub struct RTDSessionTypeUnknownBuilder {
    pub inner: SessionTypeUnknown,
}

impl RTDSessionTypeUnknownBuilder {
    pub fn build(self) -> (r: SessionTypeUnknown)
        ensures
            r == self.inner,
    {
        self.inner
    }
}

/// The session is running on the Vivaldi browser
#[derive(Debug, Clone, PartialEq)]
pub struct SessionTypeVivaldi {
    pub extra: Option<String>,
    pub client_id: Option<i32>,
}

impl SessionTypeVivaldi {
    pub fn builder() -> (r: RTDSessionTypeVivaldiBuilder)
        ensures
            r.inner.extra is Some,
            r.inner.extra->0@.len() == 36,
            r.inner.client_id is None,
    {
        let inner = SessionTypeVivaldi {
            extra: Some(fresh_request_extra()),
            client_id: None,
        };
        RTDSessionTypeVivaldiBuilder { inner }
    }
}

pub struct RTDSessionTypeVivaldiBuilder {
    pub inner: SessionTypeVivaldi,
}

impl RTDSessionTypeVivaldiBuilder {
    pub fn build(self) -> (r: SessionTypeVivaldi)
        ensures
            r == self.inner,
    {
        self.inner
    }
}

/// The session is running on a Windows device
#[derive(Debug, Clone, PartialEq)]
pub struct SessionTypeWindows {
    pub extra: Option<String>,
    pub client_id: Option<i32>,
}

impl SessionTypeWindows {
    pub fn builder() -> (r: RTDSessionTypeWindowsBuilder)
        ensures
            r.inner.extra is Some,
            r.inner.extra->0@.len() == 36,
            r.inner.client_id is None,
    {
        let inner = SessionTypeWindows {
            extra: Some(fresh_request_extra()),
            client_id: None,
        };
        RTDSessionTypeWindowsBuilder { inner }
    }
}

pub struct RTDSessionTypeWindowsBuilder {
    pub inner: SessionTypeWindows,
}

impl RTDSessionTypeWindowsBuilder {
    pub fn build(self) -> (r: SessionTypeWindows)
        ensures
            r == self.inner,
    {
        self.inner
    }
}

/// The session is running on an Xbox console
#[derive(Debug, Clone, PartialEq)]
pub struct SessionTypeXbox {
    pub extra: Option<String>,
    pub client_id: Option<i32>,
}

impl SessionTypeXbox {
    pub fn builder() -> (r: RTDSessionTypeXboxBuilder)
        ensures
            r.inner.extra is Some,
            r.inner.extra->0@.len() == 36,
            r.inner.client_id is None,
    {
        let inner = SessionTypeXbox {
            extra: Some(fresh_request_extra()),
            client_id: None,
        };
        RTDSessionTypeXboxBuilder { inner }
    }
}

pub struct RTDSessionTypeXboxBuilder {
    pub inner: SessionTypeXbox,
}

impl RTDSessionTypeXboxBuilder {
    pub fn build(self) -> (r: SessionTypeXbox)
        ensures
            r == self.inner,
    {
        self.inner
    }
}

impl TDSessionType for SessionTypeAndroid {}
impl TDSessionType for SessionTypeApple {}
impl TDSessionType for SessionTypeBrave {}
impl TDSessionType for SessionTypeChrome {}
impl TDSessionType for SessionTypeEdge {}
impl TDSessionType for SessionTypeFirefox {}
impl TDSessionType for SessionTypeIpad {}
impl TDSessionType for SessionTypeIphone {}
impl TDSessionType for SessionTypeLinux {}
impl TDSessionType for SessionTypeMac {}
impl TDSessionType for SessionTypeOpera {}
impl TDSessionType for SessionTypeSafari {}
impl TDSessionType for SessionTypeUbuntu {}
impl TDSessionType for SessionTypeUnknown {}
impl TDSessionType for SessionTypeVivaldi {}
impl TDSessionType for SessionTypeWindows {}
impl TDSessionType for SessionTypeXbox {}

impl SessionType {
    /// The correlation identifier this value carries, if any.
    pub open spec fn spec_extra(&self) -> Option<Seq<char>> {
        match self {
            SessionType::_Default => None,
            SessionType::Android(t) => opt_str_view(t.extra),
            SessionType::Apple(t) => opt_str_view(t.extra),
            SessionType::Brave(t) => opt_str_view(t.extra),
            SessionType::Chrome(t) => opt_str_view(t.extra),
            SessionType::Edge(t) => opt_str_view(t.extra),
            SessionType::Firefox(t) => opt_str_view(t.extra),
            SessionType::Ipad(t) => opt_str_view(t.extra),
            SessionType::Iphone(t) => opt_str_view(t.extra),
            SessionType::Linux(t) => opt_str_view(t.extra),
            SessionType::Mac(t) => opt_str_view(t.extra),
            SessionType::Opera(t) => opt_str_view(t.extra),
            SessionType::Safari(t) => opt_str_view(t.extra),
            SessionType::Ubuntu(t) => opt_str_view(t.extra),
            SessionType::Unknown(t) => opt_str_view(t.extra),
            SessionType::Vivaldi(t) => opt_str_view(t.extra),
            SessionType::Windows(t) => opt_str_view(t.extra),
            SessionType::Xbox(t) => opt_str_view(t.extra),
        }
    }

    /// The correlation identifier this value carries, if any.
    pub fn extra(&self) -> (r: Option<&String>)
        ensures
            match r {
                Some(s) => self.spec_extra() == Some(s@),
                None => self.spec_extra() is None,
            },
    {
        let o = match self {
            SessionType::_Default => &None,
            SessionType::Android(t) => &t.extra,
            SessionType::Apple(t) => &t.extra,
            SessionType::Brave(t) => &t.extra,
            SessionType::Chrome(t) => &t.extra,
            SessionType::Edge(t) => &t.extra,
            SessionType::Firefox(t) => &t.extra,
            SessionType::Ipad(t) => &t.extra,
            SessionType::Iphone(t) => &t.extra,
            SessionType::Linux(t) => &t.extra,
            SessionType::Mac(t) => &t.extra,
            SessionType::Opera(t) => &t.extra,
            SessionType::Safari(t) => &t.extra,
            SessionType::Ubuntu(t) => &t.extra,
            SessionType::Unknown(t) => &t.extra,
            SessionType::Vivaldi(t) => &t.extra,
            SessionType::Windows(t) => &t.extra,
            SessionType::Xbox(t) => &t.extra,
        };
        match o {
            Some(s) => Some(s),
            None => None,
        }
    }

    /// The client identifier this value carries, if any.
    pub fn client_id(&self) -> (r: Option<i32>)
        ensures
            match self {
                SessionType::_Default => r is None,
                SessionType::Android(t) => r == t.client_id,
                SessionType::Apple(t) => r == t.client_id,
                SessionType::Brave(t) => r == t.client_id,
                SessionType::Chrome(t) => r == t.client_id,
                SessionType::Edge(t) => r == t.client_id,
                SessionType::Firefox(t) => r == t.client_id,
                SessionType::Ipad(t) => r == t.client_id,
                SessionType::Iphone(t) => r == t.client_id,
                SessionType::Linux(t) => r == t.client_id,
                SessionType::Mac(t) => r == t.client_id,
                SessionType::Opera(t) => r == t.client_id,
                SessionType::Safari(t) => r == t.client_id,
                SessionType::Ubuntu(t) => r == t.client_id,
                SessionType::Unknown(t) => r == t.client_id,
                SessionType::Vivaldi(t) => r == t.client_id,
                SessionType::Windows(t) => r == t.client_id,
                SessionType::Xbox(t) => r == t.client_id,
            },
    {
        match self {
            SessionType::_Default => None,
            SessionType::Android(t) => t.client_id,
            SessionType::Apple(t) => t.client_id,
            SessionType::Brave(t) => t.client_id,
            SessionType::Chrome(t) => t.client_id,
            SessionType::Edge(t) => t.client_id,
            SessionType::Firefox(t) => t.client_id,
            SessionType::Ipad(t) => t.client_id,
            SessionType::Iphone(t) => t.client_id,
            SessionType::Linux(t) => t.client_id,
            SessionType::Mac(t) => t.client_id,
            SessionType::Opera(t) => t.client_id,
            SessionType::Safari(t) => t.client_id,
            SessionType::Ubuntu(t) => t.client_id,
            SessionType::Unknown(t) => t.client_id,
            SessionType::Vivaldi(t) => t.client_id,
            SessionType::Windows(t) => t.client_id,
            SessionType::Xbox(t) => t.client_id,
        }
    }
}

} // verus!
