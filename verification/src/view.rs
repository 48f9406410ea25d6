use vstd::prelude::*;

use crate::error::Error;
use crate::runtime::{Enumerated, Runtime, ViewConfigurationType};
use crate::HMD_SYSTEM_ID;

verus! {

broadcast use vstd::std_specs::hash::group_hash_axioms;

/// The properties of the one supported view configuration.
#[derive(Clone, Copy, Debug, PartialEq, Eq, Structural)]
pub struct ViewConfigurationProperties {
    pub view_configuration_type: ViewConfigurationType,
    pub fov_mutable: bool,
}

/// Recommended and maximal image sizes for one view of the simulated
/// stereo display.
#[derive(Clone, Copy, Debug, PartialEq, Eq, Structural)]
pub struct ViewConfigurationView {
    pub recommended_image_rect_width: u32,
    pub max_image_rect_width: u32,
    pub recommended_image_rect_height: u32,
    pub max_image_rect_height: u32,
    pub recommended_swapchain_sample_count: u32,
    pub max_swapchain_sample_count: u32,
}

/// The image rectangle the simulated display recommends per view.
pub open spec fn spec_recommended_view() -> ViewConfigurationView {
    ViewConfigurationView {
        recommended_image_rect_width: 1024,
        max_image_rect_width: 1024,
        recommended_image_rect_height: 1024,
        max_image_rect_height: 1024,
        recommended_swapchain_sample_count: 1,
        max_swapchain_sample_count: 1,
    }
}

/// How rendered layers blend with the user's surroundings; the simulated
/// display is opaque.
#[derive(Clone, Copy, Debug, PartialEq, Eq, Structural)]
pub enum EnvironmentBlendMode {
    Opaque,
    Additive,
    AlphaBlend,
}

impl Runtime {
    /// Enumerates the one supported environment blend mode by the
    /// two-call idiom.
    pub fn enumerate_blend_modes(
        &self,
        instance_h: u64,
        system_id: u64,
        configuration_type: ViewConfigurationType,
        capacity: u32,
    ) -> (r: Result<Enumerated<EnvironmentBlendMode>, Error>)
        ensures
            system_id != HMD_SYSTEM_ID ==> r == Err::<Enumerated<EnvironmentBlendMode>, Error>(
                Error::Validation,
            ),
            system_id == HMD_SYSTEM_ID && configuration_type != ViewConfigurationType::PrimaryStereo
                ==> r == Err::<Enumerated<EnvironmentBlendMode>, Error>(
                Error::ViewConfigurationTypeUnsupported,
            ),
            system_id == HMD_SYSTEM_ID && configuration_type == ViewConfigurationType::PrimaryStereo
                && !self.instances@.dom().contains(instance_h) ==> r == Err::<
                Enumerated<EnvironmentBlendMode>,
                Error,
            >(Error::InstanceLost),
            system_id == HMD_SYSTEM_ID && configuration_type == ViewConfigurationType::PrimaryStereo
                && self.instances@.dom().contains(instance_h) ==> {
                &&& (capacity == 0 ==> r == Ok::<Enumerated<EnvironmentBlendMode>, Error>(
                    Enumerated::Count(1),
                ))
                &&& (capacity != 0 && capacity != 1 ==> r == Err::<
                    Enumerated<EnvironmentBlendMode>,
                    Error,
                >(Error::SizeInsufficient))
                &&& (capacity == 1 ==> match r {
                    Ok(Enumerated::Items(items)) => items@ =~= seq![EnvironmentBlendMode::Opaque],
                    _ => false,
                })
            },
    {
        if system_id != HMD_SYSTEM_ID {
            return Err(Error::Validation);
        }
        if !matches!(configuration_type, ViewConfigurationType::PrimaryStereo) {
            return Err(Error::ViewConfigurationTypeUnsupported);
        }
        if !self.instances.contains(instance_h) {
            return Err(Error::InstanceLost);
        }
        if capacity == 0 {
            return Ok(Enumerated::Count(1));
        }
        if capacity != 1 {
            return Err(Error::SizeInsufficient);
        }
        let mut items: Vec<EnvironmentBlendMode> = Vec::new();
        items.push(EnvironmentBlendMode::Opaque);
        Ok(Enumerated::Items(items))
    }

    /// Enumerates the one supported view configuration by the two-call
    /// idiom.
    pub fn enumerate_configurations(&self, instance_h: u64, system_id: u64, capacity: u32) -> (r:
        Result<Enumerated<ViewConfigurationType>, Error>)
        ensures
            system_id != HMD_SYSTEM_ID ==> r == Err::<Enumerated<ViewConfigurationType>, Error>(
                Error::Validation,
            ),
            system_id == HMD_SYSTEM_ID && !self.instances@.dom().contains(instance_h) ==> r
                == Err::<Enumerated<ViewConfigurationType>, Error>(Error::InstanceLost),
            system_id == HMD_SYSTEM_ID && self.instances@.dom().contains(instance_h) && capacity
                == 0 ==> r == Ok::<Enumerated<ViewConfigurationType>, Error>(Enumerated::Count(1)),
            system_id == HMD_SYSTEM_ID && self.instances@.dom().contains(instance_h) && capacity
                != 0 && capacity != 1 ==> r == Err::<Enumerated<ViewConfigurationType>, Error>(
                Error::SizeInsufficient,
            ),
            system_id == HMD_SYSTEM_ID && self.instances@.dom().contains(instance_h) && capacity
                == 1 ==> match r {
                Ok(Enumerated::Items(items)) => items@ =~= seq![
                    ViewConfigurationType::PrimaryStereo,
                ],
                _ => false,
            },
    {
        if system_id != HMD_SYSTEM_ID {
            return Err(Error::Validation);
        }
        if !self.instances.contains(instance_h) {
            return Err(Error::InstanceLost);
        }
        if capacity == 0 {
            return Ok(Enumerated::Count(1));
        }
        if capacity != 1 {
            return Err(Error::SizeInsufficient);
        }
        let mut items: Vec<ViewConfigurationType> = Vec::new();
        items.push(ViewConfigurationType::PrimaryStereo);
        Ok(Enumerated::Items(items))
    }

    /// The properties of the one supported view configuration: primary
    /// stereo with an immutable field of view.
    pub fn get_configuration_properties(
        &self,
        instance_h: u64,
        system_id: u64,
        configuration_type: ViewConfigurationType,
    ) -> (r: Result<ViewConfigurationProperties, Error>)
        ensures
            system_id != HMD_SYSTEM_ID ==> r == Err::<ViewConfigurationProperties, Error>(
                Error::Validation,
            ),
            system_id == HMD_SYSTEM_ID && configuration_type != ViewConfigurationType::PrimaryStereo
                ==> r == Err::<ViewConfigurationProperties, Error>(
                Error::ViewConfigurationTypeUnsupported,
            ),
            system_id == HMD_SYSTEM_ID && configuration_type == ViewConfigurationType::PrimaryStereo
                && !self.instances@.dom().contains(instance_h) ==> r == Err::<
                ViewConfigurationProperties,
                Error,
            >(Error::InstanceLost),
            system_id == HMD_SYSTEM_ID && configuration_type == ViewConfigurationType::PrimaryStereo
                && self.instances@.dom().contains(instance_h) ==> r == Ok::<
                ViewConfigurationProperties,
                Error,
            >(
                ViewConfigurationProperties {
                    view_configuration_type: ViewConfigurationType::PrimaryStereo,
                    fov_mutable: false,
                },
            ),
    {
        if system_id != HMD_SYSTEM_ID {
            return Err(Error::Validation);
        }
        if !matches!(configuration_type, ViewConfigurationType::PrimaryStereo) {
            return Err(Error::ViewConfigurationTypeUnsupported);
        }
        if !self.instances.contains(instance_h) {
            return Err(Error::InstanceLost);
        }
        Ok(
            ViewConfigurationProperties {
                view_configuration_type: ViewConfigurationType::PrimaryStereo,
                fov_mutable: false,
            },
        )
    }

    /// Enumerates the two per-eye views of the stereo configuration by
    /// the two-call idiom.
    pub fn enumerate_configuration_views(
        &self,
        instance_h: u64,
        system_id: u64,
        configuration_type: ViewConfigurationType,
        capacity: u32,
    ) -> (r: Result<Enumerated<ViewConfigurationView>, Error>)
        ensures
            system_id != HMD_SYSTEM_ID ==> r == Err::<Enumerated<ViewConfigurationView>, Error>(
                Error::Validation,
            ),
            system_id == HMD_SYSTEM_ID && configuration_type != ViewConfigurationType::PrimaryStereo
                ==> r == Err::<Enumerated<ViewConfigurationView>, Error>(
                Error::ViewConfigurationTypeUnsupported,
            ),
            system_id == HMD_SYSTEM_ID && configuration_type == ViewConfigurationType::PrimaryStereo
                && !self.instances@.dom().contains(instance_h) ==> r == Err::<
                Enumerated<ViewConfigurationView>,
                Error,
            >(Error::InstanceLost),
            system_id == HMD_SYSTEM_ID && configuration_type == ViewConfigurationType::PrimaryStereo
                && self.instances@.dom().contains(instance_h) ==> {
                &&& (capacity == 0 ==> r == Ok::<Enumerated<ViewConfigurationView>, Error>(
                    Enumerated::Count(2),
                ))
                &&& (capacity != 0 && capacity != 2 ==> r == Err::<
                    Enumerated<ViewConfigurationView>,
                    Error,
                >(Error::SizeInsufficient))
                &&& (capacity == 2 ==> match r {
                    Ok(Enumerated::Items(items)) => items@ =~= seq![
                        spec_recommended_view(),
                        spec_recommended_view(),
                    ],
                    _ => false,
                })
            },
    {
        if system_id != HMD_SYSTEM_ID {
            return Err(Error::Validation);
        }
        if !matches!(configuration_type, ViewConfigurationType::PrimaryStereo) {
            return Err(Error::ViewConfigurationTypeUnsupported);
        }
        if !self.instances.contains(instance_h) {
            return Err(Error::InstanceLost);
        }
        if capacity == 0 {
            return Ok(Enumerated::Count(2));
        }
        if capacity != 2 {
            return Err(Error::SizeInsufficient);
        }
        let view = ViewConfigurationView {
            recommended_image_rect_width: 1024,
            max_image_rect_width: 1024,
            recommended_image_rect_height: 1024,
            max_image_rect_height: 1024,
            recommended_swapchain_sample_count: 1,
            max_swapchain_sample_count: 1,
        };
        let mut items: Vec<ViewConfigurationView> = Vec::new();
        items.push(view);
        items.push(view);
        Ok(Enumerated::Items(items))
    }

    /// Locates the two stereo views in a space attached to the session:
    /// claims fully tracked view flags. The caller must pass exactly the
    /// two-view capacity.
    pub fn locate_views(
        &self,
        session_h: u64,
        configuration_type: ViewConfigurationType,
        space_h: u64,
        capacity: u32,
    ) -> (r: Result<u64, Error>)
        ensures
            configuration_type != ViewConfigurationType::PrimaryStereo ==> r == Err::<u64, Error>(
                Error::Validation,
            ),
            configuration_type == ViewConfigurationType::PrimaryStereo && capacity != 2 ==> r
                == Err::<u64, Error>(Error::SizeInsufficient),
            configuration_type == ViewConfigurationType::PrimaryStereo && capacity == 2 && !self.sessions@.dom().contains(
                session_h,
            ) ==> r == Err::<u64, Error>(Error::SessionLost),
            configuration_type == ViewConfigurationType::PrimaryStereo && capacity == 2
                && self.sessions@.dom().contains(session_h) && !self.sessions@[
                session_h
            ].space_ids@.dom().contains(space_h) ==> r == Err::<u64, Error>(Error::SessionLost),
            configuration_type == ViewConfigurationType::PrimaryStereo && capacity == 2
                && self.sessions@.dom().contains(session_h) && self.sessions@[
                session_h
            ].space_ids@.dom().contains(space_h) ==> r == Ok::<u64, Error>(0b1111),
    {
        if !matches!(configuration_type, ViewConfigurationType::PrimaryStereo) {
            return Err(Error::Validation);
        }
        if capacity != 2 {
            return Err(Error::SizeInsufficient);
        }
        let session = match self.sessions.get(session_h) {
            None => {
                return Err(Error::SessionLost);
            },
            Some(session) => session,
        };
        if !session.space_ids.contains_key(&space_h) {
            return Err(Error::SessionLost);
        }
        Ok(0b1111)
    }
}

} // verus!
