//! The bootstrap loaders of the engine and the dependencies they declare.
use vstd::prelude::*;
use crate::builder::{AppBuilder, IndirectDependency};
use crate::dependency::string_views;

verus! {

/// The bootstrap loaders the engine knows of. Each one sets up a part of the Vulkan
/// state after the logical device exists and tears it down again before the device goes.
#[derive(Clone, Copy, Debug, PartialEq, Eq, Structural)]
pub enum BootstrapLoaderKind {
    TextureSampling,
    Swapchain,
    CommandBuffer,
    Uniform,
    RenderImages,
    DepthBuffer,
    Pipeline,
    Framebuffer,
    SyncObjects,
    DescriptorSet,
    Validation,
}

/// The dependency name of a loader.
pub open spec fn loader_name(kind: BootstrapLoaderKind) -> Seq<char> {
    match kind {
        BootstrapLoaderKind::TextureSampling => "BootstrapTextureSamplingLoader"@,
        BootstrapLoaderKind::Swapchain => "BootstrapSwapchainLoader"@,
        BootstrapLoaderKind::CommandBuffer => "BootstrapCommandBufferLoader"@,
        BootstrapLoaderKind::Uniform => "BootstrapUniformLoader"@,
        BootstrapLoaderKind::RenderImages => "BootstrapRenderImagesLoader"@,
        BootstrapLoaderKind::DepthBuffer => "BootstrapDepthBufferLoader"@,
        BootstrapLoaderKind::Pipeline => "BootstrapPipelineLoader"@,
        BootstrapLoaderKind::Framebuffer => "BootstrapFramebufferLoader"@,
        BootstrapLoaderKind::SyncObjects => "BootstrapSyncObjectsLoader"@,
        BootstrapLoaderKind::DescriptorSet => "BootstrapDescriptorSetLoader"@,
        BootstrapLoaderKind::Validation => "BootstrapValidationLoader"@,
    }
}

/// The loaders a loader depends on.
pub open spec fn loader_dependencies(kind: BootstrapLoaderKind) -> Seq<BootstrapLoaderKind> {
    match kind {
        BootstrapLoaderKind::CommandBuffer => seq![BootstrapLoaderKind::Swapchain],
        BootstrapLoaderKind::Uniform => seq![BootstrapLoaderKind::Swapchain],
        BootstrapLoaderKind::RenderImages => seq![
            BootstrapLoaderKind::Swapchain,
            BootstrapLoaderKind::CommandBuffer,
        ],
        BootstrapLoaderKind::DepthBuffer => seq![
            BootstrapLoaderKind::Swapchain,
            BootstrapLoaderKind::CommandBuffer,
        ],
        BootstrapLoaderKind::Pipeline => seq![
            BootstrapLoaderKind::Swapchain,
            BootstrapLoaderKind::RenderImages,
            BootstrapLoaderKind::Uniform,
        ],
        BootstrapLoaderKind::DescriptorSet => seq![
            BootstrapLoaderKind::Uniform,
            BootstrapLoaderKind::CommandBuffer,
        ],
        _ => seq![],
    }
}

impl BootstrapLoaderKind {
    /// The dependency name of this loader.
    pub fn name(&self) -> (r: String)
        ensures
            r@ == loader_name(*self),
    {
        match self {
            BootstrapLoaderKind::TextureSampling => String::from_str("BootstrapTextureSamplingLoader"),
            BootstrapLoaderKind::Swapchain => String::from_str("BootstrapSwapchainLoader"),
            BootstrapLoaderKind::CommandBuffer => String::from_str("BootstrapCommandBufferLoader"),
            BootstrapLoaderKind::Uniform => String::from_str("BootstrapUniformLoader"),
            BootstrapLoaderKind::RenderImages => String::from_str("BootstrapRenderImagesLoader"),
            BootstrapLoaderKind::DepthBuffer => String::from_str("BootstrapDepthBufferLoader"),
            BootstrapLoaderKind::Pipeline => String::from_str("BootstrapPipelineLoader"),
            BootstrapLoaderKind::Framebuffer => String::from_str("BootstrapFramebufferLoader"),
            BootstrapLoaderKind::SyncObjects => String::from_str("BootstrapSyncObjectsLoader"),
            BootstrapLoaderKind::DescriptorSet => String::from_str("BootstrapDescriptorSetLoader"),
            BootstrapLoaderKind::Validation => String::from_str("BootstrapValidationLoader"),
        }
    }

    /// The loaders this loader depends on.
    pub fn dependencies(&self) -> (r: Vec<BootstrapLoaderKind>)
        ensures
            r@ == loader_dependencies(*self),
    {
        let mut v: Vec<BootstrapLoaderKind> = Vec::new();
        match self {
            BootstrapLoaderKind::CommandBuffer => {
                v.push(BootstrapLoaderKind::Swapchain);
            },
            BootstrapLoaderKind::Uniform => {
                v.push(BootstrapLoaderKind::Swapchain);
            },
            BootstrapLoaderKind::RenderImages => {
                v.push(BootstrapLoaderKind::Swapchain);
                v.push(BootstrapLoaderKind::CommandBuffer);
            },
            BootstrapLoaderKind::DepthBuffer => {
                v.push(BootstrapLoaderKind::Swapchain);
                v.push(BootstrapLoaderKind::CommandBuffer);
            },
            BootstrapLoaderKind::Pipeline => {
                v.push(BootstrapLoaderKind::Swapchain);
                v.push(BootstrapLoaderKind::RenderImages);
                v.push(BootstrapLoaderKind::Uniform);
            },
            BootstrapLoaderKind::DescriptorSet => {
                v.push(BootstrapLoaderKind::Uniform);
                v.push(BootstrapLoaderKind::CommandBuffer);
            },
            _ => {},
        }
        assert(v@ =~= loader_dependencies(*self));
        v
    }
}

impl IndirectDependency for BootstrapLoaderKind {
    open spec fn spec_dependency_name(&self) -> Seq<char> {
        loader_name(*self)
    }

    open spec fn spec_depends_on(&self) -> Seq<Seq<char>> {
        loader_dependencies(*self).map_values(|k: BootstrapLoaderKind| loader_name(k))
    }

    fn dependency_name(&self) -> (r: String) {
        self.name()
    }

    fn depends_on(&self) -> (r: Vec<String>) {
        let deps = self.dependencies();
        let mut names: Vec<String> = Vec::new();
        let mut i: usize = 0;
        while i < deps.len()
            invariant
                i <= deps@.len(),
                deps@ == loader_dependencies(*self),
                names@.len() == i,
                forall|j: int| 0 <= j < i ==> #[trigger] names@[j]@ == loader_name(deps@[j]),
            decreases deps@.len() - i,
        {
            names.push(deps[i].name());
            i = i + 1;
        }
        assert(string_views(names@) =~= self.spec_depends_on());
        names
    }
}

impl AppBuilder<BootstrapLoaderKind> {
    /// Registers the loaders every application uses, in this order: texture sampling,
    /// swapchain, command buffers, uniforms, render images, pipeline, framebuffers,
    /// synchronization objects and descriptor sets.
    pub fn add_default_bootstrap_loaders(self) -> (r: Self)
        ensures
            r.loaders() == self.loaders() + seq![
                BootstrapLoaderKind::TextureSampling,
                BootstrapLoaderKind::Swapchain,
                BootstrapLoaderKind::CommandBuffer,
                BootstrapLoaderKind::Uniform,
                BootstrapLoaderKind::RenderImages,
                BootstrapLoaderKind::Pipeline,
                BootstrapLoaderKind::Framebuffer,
                BootstrapLoaderKind::SyncObjects,
                BootstrapLoaderKind::DescriptorSet,
            ],
            r.title() == self.title(),
            r.size() == self.size(),
    {
        let r = self.add_bootstrap_loader(BootstrapLoaderKind::TextureSampling)
            .add_bootstrap_loader(BootstrapLoaderKind::Swapchain)
            .add_bootstrap_loader(BootstrapLoaderKind::CommandBuffer)
            .add_bootstrap_loader(BootstrapLoaderKind::Uniform)
            .add_bootstrap_loader(BootstrapLoaderKind::RenderImages)
            .add_bootstrap_loader(BootstrapLoaderKind::Pipeline)
            .add_bootstrap_loader(BootstrapLoaderKind::Framebuffer)
            .add_bootstrap_loader(BootstrapLoaderKind::SyncObjects)
            .add_bootstrap_loader(BootstrapLoaderKind::DescriptorSet);
        assert(r.loaders() =~= self.loaders() + seq![
            BootstrapLoaderKind::TextureSampling,
            BootstrapLoaderKind::Swapchain,
            BootstrapLoaderKind::CommandBuffer,
            BootstrapLoaderKind::Uniform,
            BootstrapLoaderKind::RenderImages,
            BootstrapLoaderKind::Pipeline,
            BootstrapLoaderKind::Framebuffer,
            BootstrapLoaderKind::SyncObjects,
            BootstrapLoaderKind::DescriptorSet,
        ]);
        r
    }

    /// Registers the validation loader, which enables the Vulkan validation layer.
    pub fn add_validation(self) -> (r: Self)
        ensures
            r.loaders() == self.loaders().push(BootstrapLoaderKind::Validation),
            r.title() == self.title(),
            r.size() == self.size(),
    {
        self.add_bootstrap_loader(BootstrapLoaderKind::Validation)
    }
}

} // verus!
