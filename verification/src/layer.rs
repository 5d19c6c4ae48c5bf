//! The layer and its drawables: the surfaces that a frame is drawn to and shown from.

use vstd::prelude::*;
use crate::descriptor::LayerSettings;
use crate::descriptor::MTLTextureDescriptor;
use crate::device::MTLDevice;
use crate::driver::Driver;
use crate::driver::Object;
use crate::driver::Payload;
use crate::encoder::check_hand_over;
use crate::error::MetalError;
use crate::handle::Handle;
use crate::laws::lemma_leads_to_is_transitive;
use crate::laws::lemma_leads_to_itself;
use crate::laws::lemma_plus_leads_to;
use crate::laws::lemma_with_leads_to;
use crate::model::DriverView;
use crate::model::ObjectKind;
use crate::model::ObjectView;
use crate::model::Ownership;
use crate::model::PayloadView;
use crate::ownership::lemma_borrowed_names;
use crate::ownership::lemma_owned_names;
use crate::ownership::ownership_of_selector;
use crate::texture::MTLTexture;

verus! {

/// A handle to a drawable: one surface of a layer, with the texture that is drawn to.
#[derive(Debug, PartialEq, Eq)]
pub struct CAMetalDrawable(pub Handle);

/// A handle to a layer.
#[derive(Debug, PartialEq, Eq)]
pub struct CAMetalLayer(pub Handle);

/// The window that a layer is shown in, as the windowing system hands it out: a view of
/// the platform that this layer draws for, or something of another platform.
#[derive(Copy, Clone, Debug, PartialEq, Eq, Structural)]
pub enum RawWindowHandle {
    MacOS { ns_window: u64, ns_view: u64 },
    Other,
}

/// Has the view of `handle` show `layer`, whose reference the view keeps from now on. Only
/// a view of the platform that the layer draws for can show it.
pub fn set_layer_for_raw_window_handle(
    driver: &mut Driver,
    layer: CAMetalLayer,
    handle: &RawWindowHandle,
) -> (res: Result<(), MetalError>)
    requires
        handle is MacOS,
    ensures
        match old(driver)@.hand_over_fault(layer.0.0, ObjectKind::Layer) {
            Some(e) => res == Err::<(), MetalError>(e) && final(driver)@ == old(driver)@,
            None => res is Ok && final(driver)@ == old(driver)@.show(
                layer.0.0,
                handle->ns_view,
            ),
        },
        old(driver)@.leads_to(final(driver)@),
{
    proof {
        lemma_leads_to_itself(driver@);
    }
    match check_hand_over(driver, layer.0.0, ObjectKind::Layer) {
        Err(e) => {
            return Err(e);
        },
        Ok(()) => {},
    }
    let view = match handle {
        RawWindowHandle::MacOS { ns_view, .. } => *ns_view,
        RawWindowHandle::Other => 0,
    };
    let mut settings = driver.settings(layer.0.0);
    settings.view = view;
    driver.set_settings(layer.0.0, settings);
    let ghost mid = driver@;
    proof {
        lemma_with_leads_to(old(driver)@, layer.0.0, mid.get(layer.0.0));
    }
    driver.keep(layer.0.0);
    proof {
        lemma_with_leads_to(mid, layer.0.0, driver@.get(layer.0.0));
        lemma_leads_to_is_transitive(old(driver)@, mid, driver@);
    }
    Ok(())
}

/// A layer as the native call hands it to its caller: set as at first, with no drawable
/// handed out.
pub open spec fn layer_made() -> ObjectView {
    ObjectView::handed_out(
        ObjectKind::Layer,
        Ownership::Owned,
        PayloadView::Layer { settings: LayerSettings::initial(), vended: Seq::empty() },
    )
}

/// What the texture of a drawable of a layer with `settings` is like.
pub open spec fn surface(settings: LayerSettings) -> MTLTextureDescriptor {
    MTLTextureDescriptor {
        pixel_format: settings.pixel_format,
        usage: 4,
        ..MTLTextureDescriptor::initial()
    }
}

/// The texture of a drawable of a layer with `settings`, which the drawable holds.
pub open spec fn surface_made(settings: LayerSettings) -> ObjectView {
    ObjectView {
        kind: ObjectKind::Texture,
        strong: 1,
        native: 1,
        pins: Seq::empty(),
        payload: PayloadView::Texture {
            descriptor: surface(settings),
            parent: 0,
            buffer: 0,
            level: 0,
            slice: 0,
            shareable: false,
        },
    }
}

/// A drawable of `layer` with `texture` as the layer hands it out: the layer keeps the
/// reference it hands out, so the handle retains its own.
pub open spec fn drawable_made(layer: u64, texture: u64) -> ObjectView {
    ObjectView::handed_out(
        ObjectKind::Drawable,
        Ownership::Borrowed,
        PayloadView::Drawable { layer, texture, presented: false },
    )
}

impl DriverView {
    /// How many of `drawables` are in use.
    pub open spec fn count_in_use(self, drawables: Seq<u64>) -> nat
        decreases drawables.len(),
    {
        if drawables.len() == 0 {
            0
        } else {
            self.count_in_use(drawables.drop_last()) + if self.in_use(drawables.last()) {
                1nat
            } else {
                0nat
            }
        }
    }

    /// Whether layer `raw` has a drawable to hand out: it hands out no more at a time than
    /// it is set to.
    pub open spec fn drawable_available(self, raw: u64) -> bool {
        self.count_in_use(self.vended(raw)) < self.settings(raw).maximum_drawable_count
    }

    /// Why a request for a drawable of layer `raw` is refused, if it is. That no drawable
    /// is available is no refusal.
    pub open spec fn next_drawable_fault(self, raw: u64) -> Option<MetalError> {
        match self.fault(raw, ObjectKind::Layer) {
            Some(e) => Some(e),
            None => if self.drawable_available(raw) && self.objects.len() + 2 > u64::MAX {
                Some(MetalError::Exhausted)
            } else {
                None
            },
        }
    }

    /// The state after layer `raw` has handed out a drawable: its texture is the next
    /// object, the drawable the one after.
    pub open spec fn vend(self, raw: u64) -> DriverView {
        let texture = self.next();
        let drawable = (texture + 1) as u64;
        let made = self.plus(surface_made(self.settings(raw))).plus(drawable_made(raw, texture));
        made.with(raw, made.get(raw).with_vended(drawable))
    }

    /// The state after the view `view` was made to show layer `raw`: the view keeps the
    /// reference that the handle held.
    pub open spec fn show(self, raw: u64, view: u64) -> DriverView {
        let set = self.with(
            raw,
            self.get(raw).with_settings(LayerSettings { view, ..self.settings(raw) }),
        );
        set.with(raw, set.get(raw).kept())
    }

    /// Why the texture of drawable `raw` cannot be had, if it cannot.
    pub open spec fn surface_fault(self, raw: u64) -> Option<MetalError> {
        match self.fault(raw, ObjectKind::Drawable) {
            Some(e) => Some(e),
            None => self.retain_fault(self.drawable_texture(raw)),
        }
    }

    /// Why layer `raw` cannot name the device it prefers, if it cannot.
    pub open spec fn preferred_device_fault(self, raw: u64) -> Option<MetalError> {
        match self.fault(raw, ObjectKind::Layer) {
            Some(e) => Some(e),
            None => self.retain_fault(self.default_device()),
        }
    }

    /// Why layer `raw` cannot take the handle to `device`, if it cannot.
    pub open spec fn set_device_fault(self, raw: u64, device: u64) -> Option<MetalError> {
        match self.fault(raw, ObjectKind::Layer) {
            Some(e) => Some(e),
            None => self.hand_over_fault(device, ObjectKind::Device),
        }
    }

    /// The state after layer `raw` has taken `device`, whose handle gave its reference up.
    pub open spec fn set_device(self, raw: u64, device: u64) -> DriverView {
        self.with(
            raw,
            self.get(raw).with_settings(LayerSettings { device, ..self.settings(raw) }),
        ).release(device)
    }
}

impl CAMetalDrawable {
    /// The texture of the drawable, retained: the drawable keeps its own reference.
    pub fn get_texture(&self, driver: &mut Driver) -> (res: Result<MTLTexture, MetalError>)
        ensures
            match old(driver)@.surface_fault(self.0.0) {
                Some(e) => res == Err::<MTLTexture, MetalError>(
                    e,
                ) && final(driver)@ == old(driver)@,
                None => res == Ok::<MTLTexture, MetalError>(
                    MTLTexture(Handle(old(driver)@.drawable_texture(self.0.0))),
                ) && final(driver)@ == old(driver)@.retain(old(driver)@.drawable_texture(self.0.0)),
            },
            old(driver)@.leads_to(final(driver)@),
    {
        proof {
            lemma_leads_to_itself(driver@);
            lemma_borrowed_names();
        }
        match driver.check(self.0.0, ObjectKind::Drawable) {
            Err(e) => {
                return Err(e);
            },
            Ok(()) => {},
        }
        let texture = driver.drawable_texture(self.0.0);
        match Handle::adopt(driver, texture, ownership_of_selector("texture")) {
            Ok(handle) => Ok(MTLTexture(handle)),
            Err(e) => Err(e),
        }
    }

    /// Presents the drawable: its layer no longer waits for it.
    pub fn present(&self, driver: &mut Driver) -> (res: Result<(), MetalError>)
        ensures
            match old(driver)@.fault(self.0.0, ObjectKind::Drawable) {
                Some(e) => res == Err::<(), MetalError>(e) && final(driver)@ == old(driver)@,
                None => res is Ok && final(driver)@ == old(driver)@.with(
                    self.0.0,
                    old(driver)@.get(self.0.0).with_presented(),
                ),
            },
            res is Ok ==> !final(driver)@.in_use(self.0.0),
            old(driver)@.leads_to(final(driver)@),
    {
        proof {
            lemma_leads_to_itself(driver@);
        }
        match driver.check(self.0.0, ObjectKind::Drawable) {
            Err(e) => {
                return Err(e);
            },
            Ok(()) => {},
        }
        driver.set_presented(self.0.0);
        proof {
            lemma_with_leads_to(old(driver)@, self.0.0, driver@.get(self.0.0));
        }
        Ok(())
    }
}

impl CAMetalLayer {
    /// A new layer.
    pub fn new(driver: &mut Driver) -> (res: Result<CAMetalLayer, MetalError>)
        ensures
            old(driver)@.full() ==> res == Err::<CAMetalLayer, MetalError>(MetalError::Exhausted)
                && final(driver)@ == old(driver)@,
            !old(driver)@.full() ==> res == Ok::<CAMetalLayer, MetalError>(
                CAMetalLayer(Handle(old(driver)@.next())),
            ) && final(driver)@ == old(driver)@.plus(layer_made()),
            old(driver)@.leads_to(final(driver)@),
    {
        proof {
            lemma_owned_names();
        }
        match driver.make(
            ObjectKind::Layer,
            "new",
            Payload::Layer { settings: LayerSettings::new(), vended: Vec::new() },
        ) {
            Ok(handle) => Ok(CAMetalLayer(handle)),
            Err(e) => Err(e),
        }
    }

    /// The settings of the layer.
    pub fn get_settings(&self, driver: &Driver) -> (res: Result<LayerSettings, MetalError>)
        ensures
            match driver@.fault(self.0.0, ObjectKind::Layer) {
                Some(e) => res == Err::<LayerSettings, MetalError>(e),
                None => res == Ok::<LayerSettings, MetalError>(driver@.settings(self.0.0)),
            },
    {
        match driver.check(self.0.0, ObjectKind::Layer) {
            Err(e) => Err(e),
            Ok(()) => Ok(driver.settings(self.0.0)),
        }
    }

    /// Sets the device that makes the drawables. The handle gives its reference up.
    pub fn set_device(
        &self,
        driver: &mut Driver,
        device: MTLDevice,
    ) -> (res: Result<(), MetalError>)
        ensures
            match old(driver)@.set_device_fault(self.0.0, device.0.0) {
                Some(e) => res == Err::<(), MetalError>(e) && final(driver)@ == old(driver)@,
                None => res is Ok && final(driver)@ == old(driver)@.set_device(
                    self.0.0,
                    device.0.0,
                ),
            },
            old(driver)@.leads_to(final(driver)@),
    {
        proof {
            lemma_leads_to_itself(driver@);
        }
        match driver.check(self.0.0, ObjectKind::Layer) {
            Err(e) => {
                return Err(e);
            },
            Ok(()) => {},
        }
        match check_hand_over(driver, device.0.0, ObjectKind::Device) {
            Err(e) => {
                return Err(e);
            },
            Ok(()) => {},
        }
        let mut settings = driver.settings(self.0.0);
        settings.device = device.0.0;
        driver.set_settings(self.0.0, settings);
        let ghost mid = driver@;
        proof {
            lemma_with_leads_to(old(driver)@, self.0.0, mid.get(self.0.0));
        }
        assert(mid.get(device.0.0).strong > mid.get(device.0.0).native);
        assert(mid.live(device.0.0));
        let _ = driver.release(device.0.0);
        proof {
            lemma_leads_to_is_transitive(old(driver)@, mid, driver@);
        }
        Ok(())
    }

    /// The device that the system prefers for the layer, retained; the null handle where
    /// the system has no device.
    pub fn get_preferred_device(&self, driver: &mut Driver) -> (res: Result<MTLDevice, MetalError>)
        ensures
            match old(driver)@.preferred_device_fault(self.0.0) {
                Some(e) => res == Err::<MTLDevice, MetalError>(e) && final(driver)@ == old(driver)@,
                None => res == Ok::<MTLDevice, MetalError>(
                    MTLDevice(Handle(old(driver)@.default_device())),
                ) && final(driver)@ == old(driver)@.retain(old(driver)@.default_device()),
            },
            old(driver)@.leads_to(final(driver)@),
    {
        proof {
            lemma_leads_to_itself(driver@);
            lemma_borrowed_names();
        }
        match driver.check(self.0.0, ObjectKind::Layer) {
            Err(e) => {
                return Err(e);
            },
            Ok(()) => {},
        }
        let raw: u64 = if driver.devices.len() == 0 {
            0
        } else {
            driver.devices[0]
        };
        match Handle::adopt(driver, raw, ownership_of_selector("preferredDevice")) {
            Ok(handle) => Ok(MTLDevice(handle)),
            Err(e) => Err(e),
        }
    }

    /// Sets the format of a texel of the drawables.
    pub fn set_pixel_format(
        &self,
        driver: &mut Driver,
        format: u64,
    ) -> (res: Result<(), MetalError>)
        ensures
            match old(driver)@.fault(self.0.0, ObjectKind::Layer) {
                Some(e) => res == Err::<(), MetalError>(e) && final(driver)@ == old(driver)@,
                None => res is Ok && final(driver)@ == old(driver)@.with(
                    self.0.0,
                    old(driver)@.get(self.0.0).with_settings(
                        LayerSettings { pixel_format: format, ..old(driver)@.settings(self.0.0) },
                    ),
                ),
            },
            old(driver)@.leads_to(final(driver)@),
    {
        proof {
            lemma_leads_to_itself(driver@);
        }
        match driver.check(self.0.0, ObjectKind::Layer) {
            Err(e) => {
                return Err(e);
            },
            Ok(()) => {},
        }
        let mut settings = driver.settings(self.0.0);
        settings.pixel_format = format;
        driver.set_settings(self.0.0, settings);
        proof {
            lemma_with_leads_to(old(driver)@, self.0.0, driver@.get(self.0.0));
        }
        Ok(())
    }

    /// Sets whether drawables serve as render targets only.
    pub fn set_framebuffer_only(
        &self,
        driver: &mut Driver,
        only: bool,
    ) -> (res: Result<(), MetalError>)
        ensures
            match old(driver)@.fault(self.0.0, ObjectKind::Layer) {
                Some(e) => res == Err::<(), MetalError>(e) && final(driver)@ == old(driver)@,
                None => res is Ok && final(driver)@ == old(driver)@.with(
                    self.0.0,
                    old(driver)@.get(self.0.0).with_settings(
                        LayerSettings { framebuffer_only: only, ..old(driver)@.settings(self.0.0) },
                    ),
                ),
            },
            old(driver)@.leads_to(final(driver)@),
    {
        proof {
            lemma_leads_to_itself(driver@);
        }
        match driver.check(self.0.0, ObjectKind::Layer) {
            Err(e) => {
                return Err(e);
            },
            Ok(()) => {},
        }
        let mut settings = driver.settings(self.0.0);
        settings.framebuffer_only = only;
        driver.set_settings(self.0.0, settings);
        proof {
            lemma_with_leads_to(old(driver)@, self.0.0, driver@.get(self.0.0));
        }
        Ok(())
    }

    /// Sets whether presentation waits for the transaction.
    pub fn set_presents_with_transaction(
        &self,
        driver: &mut Driver,
        set: bool,
    ) -> (res: Result<(), MetalError>)
        ensures
            match old(driver)@.fault(self.0.0, ObjectKind::Layer) {
                Some(e) => res == Err::<(), MetalError>(e) && final(driver)@ == old(driver)@,
                None => res is Ok && final(driver)@ == old(driver)@.with(
                    self.0.0,
                    old(driver)@.get(self.0.0).with_settings(
                        LayerSettings {
                            presents_with_transaction: set,
                            ..old(driver)@.settings(self.0.0)
                        },
                    ),
                ),
            },
            old(driver)@.leads_to(final(driver)@),
    {
        proof {
            lemma_leads_to_itself(driver@);
        }
        match driver.check(self.0.0, ObjectKind::Layer) {
            Err(e) => {
                return Err(e);
            },
            Ok(()) => {},
        }
        let mut settings = driver.settings(self.0.0);
        settings.presents_with_transaction = set;
        driver.set_settings(self.0.0, settings);
        proof {
            lemma_with_leads_to(old(driver)@, self.0.0, driver@.get(self.0.0));
        }
        Ok(())
    }

    /// Sets whether presentation waits for the display.
    pub fn set_display_sync_enabled(
        &self,
        driver: &mut Driver,
        enabled: bool,
    ) -> (res: Result<(), MetalError>)
        ensures
            match old(driver)@.fault(self.0.0, ObjectKind::Layer) {
                Some(e) => res == Err::<(), MetalError>(e) && final(driver)@ == old(driver)@,
                None => res is Ok && final(driver)@ == old(driver)@.with(
                    self.0.0,
                    old(driver)@.get(self.0.0).with_settings(
                        LayerSettings {
                            display_sync_enabled: enabled,
                            ..old(driver)@.settings(self.0.0)
                        },
                    ),
                ),
            },
            old(driver)@.leads_to(final(driver)@),
    {
        proof {
            lemma_leads_to_itself(driver@);
        }
        match driver.check(self.0.0, ObjectKind::Layer) {
            Err(e) => {
                return Err(e);
            },
            Ok(()) => {},
        }
        let mut settings = driver.settings(self.0.0);
        settings.display_sync_enabled = enabled;
        driver.set_settings(self.0.0, settings);
        proof {
            lemma_with_leads_to(old(driver)@, self.0.0, driver@.get(self.0.0));
        }
        Ok(())
    }

    /// Sets whether the extended range is asked for.
    pub fn set_wants_extended_dynamic_range_content(
        &self,
        driver: &mut Driver,
        set: bool,
    ) -> (res: Result<(), MetalError>)
        ensures
            match old(driver)@.fault(self.0.0, ObjectKind::Layer) {
                Some(e) => res == Err::<(), MetalError>(e) && final(driver)@ == old(driver)@,
                None => res is Ok && final(driver)@ == old(driver)@.with(
                    self.0.0,
                    old(driver)@.get(self.0.0).with_settings(
                        LayerSettings {
                            wants_extended_dynamic_range_content: set,
                            ..old(driver)@.settings(self.0.0)
                        },
                    ),
                ),
            },
            old(driver)@.leads_to(final(driver)@),
    {
        proof {
            lemma_leads_to_itself(driver@);
        }
        match driver.check(self.0.0, ObjectKind::Layer) {
            Err(e) => {
                return Err(e);
            },
            Ok(()) => {},
        }
        let mut settings = driver.settings(self.0.0);
        settings.wants_extended_dynamic_range_content = set;
        driver.set_settings(self.0.0, settings);
        proof {
            lemma_with_leads_to(old(driver)@, self.0.0, driver@.get(self.0.0));
        }
        Ok(())
    }

    /// Sets how many drawables the layer hands out at a time.
    pub fn set_maximum_drawable_count(
        &self,
        driver: &mut Driver,
        count: u64,
    ) -> (res: Result<(), MetalError>)
        ensures
            match old(driver)@.fault(self.0.0, ObjectKind::Layer) {
                Some(e) => res == Err::<(), MetalError>(e) && final(driver)@ == old(driver)@,
                None => res is Ok && final(driver)@ == old(driver)@.with(
                    self.0.0,
                    old(driver)@.get(self.0.0).with_settings(
                        LayerSettings {
                            maximum_drawable_count: count,
                            ..old(driver)@.settings(self.0.0)
                        },
                    ),
                ),
            },
            old(driver)@.leads_to(final(driver)@),
    {
        proof {
            lemma_leads_to_itself(driver@);
        }
        match driver.check(self.0.0, ObjectKind::Layer) {
            Err(e) => {
                return Err(e);
            },
            Ok(()) => {},
        }
        let mut settings = driver.settings(self.0.0);
        settings.maximum_drawable_count = count;
        driver.set_settings(self.0.0, settings);
        proof {
            lemma_with_leads_to(old(driver)@, self.0.0, driver@.get(self.0.0));
        }
        Ok(())
    }

    /// Sets whether a request for a drawable gives up after a while.
    pub fn set_allows_next_drawable_timeout(
        &self,
        driver: &mut Driver,
        allows: bool,
    ) -> (res: Result<(), MetalError>)
        ensures
            match old(driver)@.fault(self.0.0, ObjectKind::Layer) {
                Some(e) => res == Err::<(), MetalError>(e) && final(driver)@ == old(driver)@,
                None => res is Ok && final(driver)@ == old(driver)@.with(
                    self.0.0,
                    old(driver)@.get(self.0.0).with_settings(
                        LayerSettings {
                            allows_next_drawable_timeout: allows,
                            ..old(driver)@.settings(self.0.0)
                        },
                    ),
                ),
            },
            old(driver)@.leads_to(final(driver)@),
    {
        proof {
            lemma_leads_to_itself(driver@);
        }
        match driver.check(self.0.0, ObjectKind::Layer) {
            Err(e) => {
                return Err(e);
            },
            Ok(()) => {},
        }
        let mut settings = driver.settings(self.0.0);
        settings.allows_next_drawable_timeout = allows;
        driver.set_settings(self.0.0, settings);
        proof {
            lemma_with_leads_to(old(driver)@, self.0.0, driver@.get(self.0.0));
        }
        Ok(())
    }

    /// How many of the drawables that layer `raw` has handed out are in use.
    fn in_use(driver: &Driver, raw: u64) -> (count: usize)
        ensures
            count == driver@.count_in_use(driver@.vended(raw)),
    {
        let vended = driver.vended(raw);
        let mut count: usize = 0;
        let mut i: usize = 0;
        while i < vended.len()
            invariant
                i <= vended.len(),
                count <= i,
                count == driver@.count_in_use(vended@.take(i as int)),
            decreases vended.len() - i,
        {
            assert(vended@.take(i + 1).drop_last() == vended@.take(i as int));
            if driver.is_in_use(vended[i]) {
                count = count + 1;
            }
            i = i + 1;
        }
        assert(vended@.take(i as int) == vended@);
        count
    }

    /// The next drawable of the layer, or none where the layer has handed out as many as it
    /// is set to and none of them has been presented. The call does not wait.
    pub fn next_drawable(
        &self,
        driver: &mut Driver,
    ) -> (res: Result<Option<CAMetalDrawable>, MetalError>)
        ensures
            match old(driver)@.next_drawable_fault(self.0.0) {
                Some(e) => res == Err::<Option<CAMetalDrawable>, MetalError>(e) && final(driver)@
                    == old(driver)@,
                None => if old(driver)@.drawable_available(self.0.0) {
                    &&& res == Ok::<Option<CAMetalDrawable>, MetalError>(
                        Some(CAMetalDrawable(Handle((old(driver)@.next() + 1) as u64))),
                    )
                    &&& final(driver)@ == old(driver)@.vend(self.0.0)
                } else {
                    &&& res == Ok::<Option<CAMetalDrawable>, MetalError>(None)
                    &&& final(driver)@ == old(driver)@
                },
            },
            old(driver)@.leads_to(final(driver)@),
    {
        proof {
            lemma_leads_to_itself(driver@);
            lemma_borrowed_names();
        }
        let raw = self.0.0;
        match driver.check(raw, ObjectKind::Layer) {
            Err(e) => {
                return Err(e);
            },
            Ok(()) => {},
        }
        let settings = driver.settings(raw);
        let busy = CAMetalLayer::in_use(driver, raw);
        if busy as u64 >= settings.maximum_drawable_count {
            return Ok(None);
        }
        if driver.objects.len() as u64 >= u64::MAX - 1 {
            return Err(MetalError::Exhausted);
        }
        let texture: u64 = driver.objects.len() as u64 + 1;
        let mut descriptor = MTLTextureDescriptor::new();
        descriptor.pixel_format = settings.pixel_format;
        descriptor.usage = 4;
        proof {
            lemma_plus_leads_to(driver@, surface_made(settings));
        }
        driver.objects.push(
            Object {
                kind: ObjectKind::Texture,
                strong: 1,
                native: 1,
                pins: Vec::new(),
                payload: Payload::Texture {
                    descriptor,
                    parent: 0,
                    buffer: 0,
                    level: 0,
                    slice: 0,
                    shareable: false,
                },
            },
        );
        assert(driver@.objects =~= old(driver)@.plus(surface_made(settings)).objects);
        let ghost first = driver@;
        let made = driver.make(
            ObjectKind::Drawable,
            "nextDrawable",
            Payload::Drawable { layer: raw, texture, presented: false },
        );
        let ghost second = driver@;
        proof {
            lemma_leads_to_is_transitive(old(driver)@, first, second);
        }
        match made {
            Err(e) => Err(e),
            Ok(handle) => {
                driver.push_vended(raw, handle.0);
                proof {
                    lemma_with_leads_to(second, raw, driver@.get(raw));
                    lemma_leads_to_is_transitive(old(driver)@, second, driver@);
                }
                Ok(Some(CAMetalDrawable(handle)))
            },
        }
    }
}

} // verus!
