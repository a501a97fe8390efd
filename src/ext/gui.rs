//! The GUI capability.
use crate::ext::ExtensionPrototype;
use crate::ext::params::FloatBits;
use crate::strings::{PluginGUIWindowAPIName, PluginGUIWindowTitle};
use clap_sys::ext::gui::{clap_gui_resize_hints, clap_window};
use vstd::prelude::*;

verus! {

/// clap_sys's window resize hints, copied through unread.
#[verifier::external_type_specification]
#[verifier::external_body]
pub struct ExGuiResizeHints(clap_gui_resize_hints);

/// clap_sys's handle on a host window, handed through unread.
#[verifier::external_type_specification]
#[verifier::external_body]
pub struct ExWindow(clap_window);

/// Relies on clap_sys::ext::gui::CLAP_WINDOW_API_WIN32: the bytes of "win32".
#[verifier::external_body]
fn window_api_win32() -> (r: &'static [u8])
    ensures
        r@ == PluginGUIWindowAPI::Windows.spec_name(),
{
    clap_sys::ext::gui::CLAP_WINDOW_API_WIN32.to_bytes()
}

/// Relies on clap_sys::ext::gui::CLAP_WINDOW_API_COCOA: the bytes of "cocoa".
#[verifier::external_body]
fn window_api_cocoa() -> (r: &'static [u8])
    ensures
        r@ == PluginGUIWindowAPI::Cocoa.spec_name(),
{
    clap_sys::ext::gui::CLAP_WINDOW_API_COCOA.to_bytes()
}

/// Relies on clap_sys::ext::gui::CLAP_WINDOW_API_X11: the bytes of "x11".
#[verifier::external_body]
fn window_api_x11() -> (r: &'static [u8])
    ensures
        r@ == PluginGUIWindowAPI::X11.spec_name(),
{
    clap_sys::ext::gui::CLAP_WINDOW_API_X11.to_bytes()
}

/// Relies on clap_sys::ext::gui::CLAP_WINDOW_API_WAYLAND: the bytes of "wayland".
#[verifier::external_body]
fn window_api_wayland() -> (r: &'static [u8])
    ensures
        r@ == PluginGUIWindowAPI::Wayland.spec_name(),
{
    clap_sys::ext::gui::CLAP_WINDOW_API_WAYLAND.to_bytes()
}

/// The windowing APIs a GUI can be embedded with.
#[derive(Debug, Clone, Copy, PartialEq, Eq, Structural)]
pub enum PluginGUIWindowAPI {
    Windows,
    Cocoa,
    X11,
    Wayland,
}

impl PluginGUIWindowAPI {
    /// The name of each API.
    pub open spec fn spec_name(self) -> Seq<u8> {
        match self {
            PluginGUIWindowAPI::Windows => seq![119u8, 105u8, 110u8, 51u8, 50u8],  // "win32"
            PluginGUIWindowAPI::Cocoa => seq![99u8, 111u8, 99u8, 111u8, 97u8],  // "cocoa"
            PluginGUIWindowAPI::X11 => seq![120u8, 49u8, 49u8],  // "x11"
            PluginGUIWindowAPI::Wayland => seq![119u8, 97u8, 121u8, 108u8, 97u8, 110u8, 100u8],  // "wayland"
        }
    }

    pub fn name(&self) -> (r: &'static [u8])
        ensures
            r@ == self.spec_name(),
    {
        match self {
            PluginGUIWindowAPI::Windows => window_api_win32(),
            PluginGUIWindowAPI::Cocoa => window_api_cocoa(),
            PluginGUIWindowAPI::X11 => window_api_x11(),
            PluginGUIWindowAPI::Wayland => window_api_wayland(),
        }
    }

    /// The API with the given name; none for a name that no API has.
    pub fn maybe_from(api_name: &PluginGUIWindowAPIName) -> (r: Option<PluginGUIWindowAPI>)
        ensures
            r matches Some(a) ==> a.spec_name() == api_name@,
            r is None ==> (forall|a: PluginGUIWindowAPI| a.spec_name() != api_name@),
    {
        if api_name.is(window_api_win32()) {
            Some(PluginGUIWindowAPI::Windows)
        } else if api_name.is(window_api_cocoa()) {
            Some(PluginGUIWindowAPI::Cocoa)
        } else if api_name.is(window_api_wayland()) {
            Some(PluginGUIWindowAPI::Wayland)
        } else if api_name.is(window_api_x11()) {
            Some(PluginGUIWindowAPI::X11)
        } else {
            proof {
                assert forall|a: PluginGUIWindowAPI| a.spec_name() != api_name@ by {
                    match a {
                        PluginGUIWindowAPI::Windows => {},
                        PluginGUIWindowAPI::Cocoa => {},
                        PluginGUIWindowAPI::X11 => {},
                        PluginGUIWindowAPI::Wayland => {},
                    }
                }
            }
            None
        }
    }
}

/// A windowing API together with whether the window floats.
#[derive(Debug, Clone, Copy, PartialEq, Eq, Structural)]
pub struct PluginGUIWindowAPIDetails {
    pub window_api: PluginGUIWindowAPI,
    pub is_floating: bool,
}

/// A window size in pixels.
#[derive(Debug, Clone, Copy, PartialEq, Eq, Structural)]
pub struct PluginGUIWindowSize {
    pub width: u32,
    pub height: u32,
}

impl PluginGUIWindowSize {
    pub fn new(width: u32, height: u32) -> (r: PluginGUIWindowSize)
        ensures
            r.width == width && r.height == height,
    {
        PluginGUIWindowSize { width, height }
    }
}

/// The name of a windowing API, as a host passes it.
pub struct GUIApi<'api> {
    name: &'api [u8],
}

impl<'api> GUIApi<'api> {
    pub closed spec fn spec_name(&self) -> Seq<u8> {
        self.name@
    }

    pub fn new(name: &'api [u8]) -> (r: Self)
        ensures
            r.spec_name() == name@,
    {
        GUIApi { name }
    }

    pub fn as_bytes(&self) -> (r: &'api [u8])
        ensures
            r@ == self.spec_name(),
    {
        self.name
    }
}

/// What a plugin implements to show a GUI.
pub trait PluginGUIPrototype: ExtensionPrototype {
    /// Whether the API, embedded or floating, is supported.
    fn is_api_supported(&self, window_details: PluginGUIWindowAPIDetails) -> bool;

    /// The API the plugin prefers, if any; a hint the host may ignore.
    fn get_preferred_api(&self) -> Option<PluginGUIWindowAPIDetails>;

    /// Allocates the GUI's resources; whether it was created.
    fn create(&self, window_details: PluginGUIWindowAPIDetails) -> bool;

    /// Frees the GUI's resources.
    fn destroy(&self);

    /// Sets the absolute scaling factor; whether it was applied.
    fn set_scale(&self, scale: FloatBits) -> bool;

    /// The current size, if the plugin knows it.
    fn get_size(&self) -> Option<PluginGUIWindowSize>;

    /// Whether the window can be resized by dragging.
    fn can_resize(&self) -> bool;

    /// Hints on how to resize the window, if the plugin has them.
    fn get_resize_hints(&self) -> Option<clap_gui_resize_hints>;

    /// Moves the given size to the closest usable one; whether it could.
    fn adjust_size(&self, given_size: &mut PluginGUIWindowSize) -> bool;

    /// Resizes the window; whether it could.
    fn set_size(&self, target_size: PluginGUIWindowSize) -> bool;

    /// Embeds the window into the given one; whether it could.
    fn set_parent(&self, window: &clap_window) -> bool;

    /// Keeps the floating window above the given one; whether it could.
    fn set_transient(&self, window: &clap_window) -> bool;

    /// Suggests a title for a floating window.
    fn suggest_title(&self, title: &PluginGUIWindowTitle);

    /// Shows the window; whether it could.
    fn show(&self) -> bool;

    /// Hides the window without freeing it; whether it could.
    fn hide_window(&self) -> bool;
}

/// No two APIs share a name.
pub proof fn lemma_api_names_distinct(a: PluginGUIWindowAPI, b: PluginGUIWindowAPI)
    ensures
        a.spec_name() == b.spec_name() ==> a == b,
{
    if a.spec_name() == b.spec_name() {
        assert(a.spec_name().len() == b.spec_name().len());
        assert(a.spec_name()[0] == b.spec_name()[0]);
    }
}

/// The API that a name given by the host names, read as a bounded C string.
pub open spec fn named_api(api: Seq<u8>) -> Option<PluginGUIWindowAPI> {
    match crate::strings::c_string_outcome(api, 256) {
        Ok(name) => if exists|a: PluginGUIWindowAPI| a.spec_name() == name {
            Some(choose|a: PluginGUIWindowAPI| a.spec_name() == name)
        } else {
            None
        },
        Err(_) => None,
    }
}

/// Reads the API that the host names; none for a malformed or unknown name.
pub fn read_api(api: &[u8]) -> (r: Option<PluginGUIWindowAPI>)
    ensures
        r == named_api(api@),
{
    match PluginGUIWindowAPIName::try_from_bytes(api) {
        Ok(name) => {
            let r = PluginGUIWindowAPI::maybe_from(&name);
            proof {
                if let Some(a) = r {
                    lemma_api_names_distinct(a, choose|b: PluginGUIWindowAPI| b.spec_name() == name@);
                }
            }
            r
        },
        Err(_) => None,
    }
}

/// Asks whether an API is supported; false without the capability or for an
/// API name that names no API.
pub fn is_api_supported<E: PluginGUIPrototype>(ext: Option<&E>, api: &[u8], is_floating: bool) -> (r: bool)
    ensures
        ext is None || named_api(api@) is None ==> !r,
{
    match ext {
        Some(e) => match read_api(api) {
            Some(window_api) => e.is_api_supported(PluginGUIWindowAPIDetails { window_api, is_floating }),
            None => false,
        },
        None => false,
    }
}

/// Step four for a preference: writes the API and whether it floats exactly
/// when there is one, and reports whether it did.
pub fn write_preferred(pref: Option<PluginGUIWindowAPIDetails>, api: &mut PluginGUIWindowAPI, is_floating: &mut bool) -> (r: bool)
    ensures
        r == pref is Some,
        r ==> *final(api) == pref->0.window_api && *final(is_floating) == pref->0.is_floating,
        !r ==> *final(api) == *old(api) && *final(is_floating) == *old(is_floating),
{
    match pref {
        Some(details) => {
            *api = details.window_api;
            *is_floating = details.is_floating;
            true
        },
        None => false,
    }
}

/// Writes the preferred API and whether it floats; false, writing nothing,
/// without the capability or a preference.
pub fn get_preferred_api<E: PluginGUIPrototype>(ext: Option<&E>, api: &mut PluginGUIWindowAPI, is_floating: &mut bool) -> (r: bool)
    ensures
        ext is None ==> !r,
        !r ==> *final(api) == *old(api) && *final(is_floating) == *old(is_floating),
{
    match ext {
        Some(e) => write_preferred(e.get_preferred_api(), api, is_floating),
        None => false,
    }
}

/// Creates the GUI; false without the capability or for an API name that
/// names no API.
pub fn create<E: PluginGUIPrototype>(ext: Option<&E>, api: &[u8], is_floating: bool) -> (r: bool)
    ensures
        ext is None || named_api(api@) is None ==> !r,
{
    match ext {
        Some(e) => match read_api(api) {
            Some(window_api) => e.create(PluginGUIWindowAPIDetails { window_api, is_floating }),
            None => false,
        },
        None => false,
    }
}

/// Destroys the GUI; whether the call reached the capability.
pub fn destroy<E: PluginGUIPrototype>(ext: Option<&E>) -> (r: bool)
    ensures
        r == ext is Some,
{
    match ext {
        Some(e) => {
            e.destroy();
            true
        },
        None => false,
    }
}

/// Sets the scale; false without the capability.
pub fn set_scale<E: PluginGUIPrototype>(ext: Option<&E>, scale: FloatBits) -> (r: bool)
    ensures
        ext is None ==> !r,
{
    match ext {
        Some(e) => e.set_scale(scale),
        None => false,
    }
}

/// Step four for a size: writes it exactly when there is one, and reports
/// whether it did.
pub fn write_size(size: Option<PluginGUIWindowSize>, width: &mut u32, height: &mut u32) -> (r: bool)
    ensures
        r == size is Some,
        r ==> *final(width) == size->0.width && *final(height) == size->0.height,
        !r ==> *final(width) == *old(width) && *final(height) == *old(height),
{
    match size {
        Some(s) => {
            *width = s.width;
            *height = s.height;
            true
        },
        None => false,
    }
}

/// Writes the current size; false, writing nothing, without the capability or a size.
pub fn get_size<E: PluginGUIPrototype>(ext: Option<&E>, width: &mut u32, height: &mut u32) -> (r: bool)
    ensures
        ext is None ==> !r,
        !r ==> *final(width) == *old(width) && *final(height) == *old(height),
{
    match ext {
        Some(e) => write_size(e.get_size(), width, height),
        None => false,
    }
}

/// Whether the window can be resized; false without the capability.
pub fn can_resize<E: PluginGUIPrototype>(ext: Option<&E>) -> (r: bool)
    ensures
        ext is None ==> !r,
{
    match ext {
        Some(e) => e.can_resize(),
        None => false,
    }
}

/// Writes the resize hints; false, writing nothing, without the capability or hints.
pub fn get_resize_hints<E: PluginGUIPrototype>(ext: Option<&E>, out: &mut clap_gui_resize_hints) -> (r: bool)
    ensures
        ext is None ==> !r,
        !r ==> *final(out) == *old(out),
{
    match ext {
        Some(e) => crate::ext::write_value(e.get_resize_hints(), out),
        None => false,
    }
}

/// Step four for an adjusted size: writes it back exactly when the plugin
/// could adjust it, and reports the plugin's answer.
pub fn write_adjusted(adjusted: bool, size: PluginGUIWindowSize, width: &mut u32, height: &mut u32) -> (r: bool)
    ensures
        r == adjusted,
        r ==> *final(width) == size.width && *final(height) == size.height,
        !r ==> *final(width) == *old(width) && *final(height) == *old(height),
{
    if adjusted {
        *width = size.width;
        *height = size.height;
    }
    adjusted
}

/// Adjusts the given size in place; false, leaving it as it was, without the
/// capability or when the plugin could not adjust it. The plugin is handed
/// the size the caller gave.
pub fn adjust_size<E: PluginGUIPrototype>(ext: Option<&E>, width: &mut u32, height: &mut u32) -> (r: bool)
    ensures
        ext is None ==> !r,
        !r ==> *final(width) == *old(width) && *final(height) == *old(height),
{
    match ext {
        Some(e) => {
            let mut size = PluginGUIWindowSize::new(*width, *height);
            let adjusted = e.adjust_size(&mut size);
            write_adjusted(adjusted, size, width, height)
        },
        None => false,
    }
}

/// Resizes the window; false without the capability.
pub fn set_size<E: PluginGUIPrototype>(ext: Option<&E>, width: u32, height: u32) -> (r: bool)
    ensures
        ext is None ==> !r,
{
    match ext {
        Some(e) => e.set_size(PluginGUIWindowSize::new(width, height)),
        None => false,
    }
}

/// Embeds the window; false without the capability or the parent window.
pub fn set_parent<E: PluginGUIPrototype>(ext: Option<&E>, window: Option<&clap_window>) -> (r: bool)
    ensures
        ext is None || window is None ==> !r,
{
    match (ext, window) {
        (Some(e), Some(w)) => e.set_parent(w),
        _ => false,
    }
}

/// Keeps the floating window above another; false without the capability or the window.
pub fn set_transient<E: PluginGUIPrototype>(ext: Option<&E>, window: Option<&clap_window>) -> (r: bool)
    ensures
        ext is None || window is None ==> !r,
{
    match (ext, window) {
        (Some(e), Some(w)) => e.set_transient(w),
        _ => false,
    }
}

/// Suggests a title; whether the call reached the capability, which it does
/// not without the capability or for a malformed title.
pub fn suggest_title<E: PluginGUIPrototype>(ext: Option<&E>, title: &[u8]) -> (r: bool)
    ensures
        r == (ext is Some && crate::strings::c_string_outcome(title@, 256) is Ok),
{
    match ext {
        Some(e) => match PluginGUIWindowTitle::try_from_bytes(title) {
            Ok(t) => {
                e.suggest_title(&t);
                true
            },
            Err(_) => false,
        },
        None => false,
    }
}

/// Shows the window; false without the capability.
pub fn show<E: PluginGUIPrototype>(ext: Option<&E>) -> (r: bool)
    ensures
        ext is None ==> !r,
{
    match ext {
        Some(e) => e.show(),
        None => false,
    }
}

/// Hides the window; false without the capability.
pub fn hide_window<E: PluginGUIPrototype>(ext: Option<&E>) -> (r: bool)
    ensures
        ext is None ==> !r,
{
    match ext {
        Some(e) => e.hide_window(),
        None => false,
    }
}

} // verus!
