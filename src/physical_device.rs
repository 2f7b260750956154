use vstd::prelude::*;

use crate::conf::VulkanPhysicalDeviceConfig;
use crate::error::BootstrapError;

verus! {

/// `VK_QUEUE_GRAPHICS_BIT`.
pub const QUEUE_GRAPHICS_BIT: u32 = 0x1;

/// `VK_QUEUE_COMPUTE_BIT`.
pub const QUEUE_COMPUTE_BIT: u32 = 0x2;

/// `VK_QUEUE_TRANSFER_BIT`.
pub const QUEUE_TRANSFER_BIT: u32 = 0x4;

/// `VK_QUEUE_SPARSE_BINDING_BIT`.
pub const QUEUE_SPARSE_BINDING_BIT: u32 = 0x8;

/// Whether the raw queue flag word `flags` holds every bit of `flag`.
pub open spec fn flags_contain(flags: u32, flag: u32) -> bool {
    flags & flag == flag
}

/// Relies on `ash::vk::QueueFlags::contains`: `self.0 & other.0 == other.0`.
#[verifier::external_body]
fn queue_flags_contain(flags: u32, flag: u32) -> (r: bool)
    ensures
        r == flags_contain(flags, flag),
{
    ash::vk::QueueFlags::from_raw(flags).contains(ash::vk::QueueFlags::from_raw(flag))
}

/// Which of the four queue operation kinds a queue family supports, or, used as a
/// requirement, which of them are required.
#[derive(Debug, Clone, Copy, PartialEq, Eq)]
pub struct QueueFlagSupportMatrix {
    pub graphics: bool,
    pub compute: bool,
    pub transfer: bool,
    pub sparse: bool,
}

impl QueueFlagSupportMatrix {
    /// The support matrix that a raw `VkQueueFlags` word describes.
    pub open spec fn from_flags(flags: u32) -> QueueFlagSupportMatrix {
        QueueFlagSupportMatrix {
            graphics: flags_contain(flags, QUEUE_GRAPHICS_BIT),
            compute: flags_contain(flags, QUEUE_COMPUTE_BIT),
            transfer: flags_contain(flags, QUEUE_TRANSFER_BIT),
            sparse: flags_contain(flags, QUEUE_SPARSE_BINDING_BIT),
        }
    }

    /// Reads the operation kinds out of a queue family's raw `VkQueueFlags`.
    pub fn new(queue_flags: u32) -> (r: QueueFlagSupportMatrix)
        ensures
            r == QueueFlagSupportMatrix::from_flags(queue_flags),
    {
        QueueFlagSupportMatrix {
            graphics: queue_flags_contain(queue_flags, QUEUE_GRAPHICS_BIT),
            compute: queue_flags_contain(queue_flags, QUEUE_COMPUTE_BIT),
            transfer: queue_flags_contain(queue_flags, QUEUE_TRANSFER_BIT),
            sparse: queue_flags_contain(queue_flags, QUEUE_SPARSE_BINDING_BIT),
        }
    }
}

/// The device features that an adapter offers, or, used as a requirement, that
/// are required.
#[derive(Debug, Clone, Copy, PartialEq, Eq)]
pub struct DeviceFeatureSupportMatrix {
    pub geometry_shader: bool,
}

impl DeviceFeatureSupportMatrix {
    /// Reads the features out of their `VkBool32` values (`VK_TRUE` is 1).
    pub fn new(geometry_shader: u32) -> (r: DeviceFeatureSupportMatrix)
        ensures
            r.geometry_shader == (geometry_shader == 1),
    {
        DeviceFeatureSupportMatrix { geometry_shader: geometry_shader == 1 }
    }

    /// Every feature that `required` asks for is offered by `self`.
    pub open spec fn satisfies(self, required: DeviceFeatureSupportMatrix) -> bool {
        required.geometry_shader ==> self.geometry_shader
    }

    /// Executable form of `satisfies`.
    pub fn covers(&self, required: &DeviceFeatureSupportMatrix) -> (r: bool)
        ensures
            r == self.satisfies(*required),
    {
        !required.geometry_shader || self.geometry_shader
    }
}

/// One queue family of an adapter, as the driver reports it.
#[derive(Debug, Clone, Copy, PartialEq, Eq)]
pub struct QueueFamilyInfo {
    /// The family's raw `VkQueueFlags`.
    pub queue_flags: u32,
    pub queue_count: u32,
    /// Whether the family can present to the surface of the selection; only read
    /// when a surface takes part.
    pub present_support: bool,
}

/// The slots of a queue family resolution.
#[derive(Debug, Clone, Copy, PartialEq, Eq)]
pub enum QueueKind {
    Graphics,
    Compute,
    Transfer,
    Sparse,
    Present,
}

/// Whether `family` offers the operation kind `kind`; presentation counts only
/// when a surface takes part.
pub open spec fn family_supports(family: QueueFamilyInfo, kind: QueueKind, surface: bool) -> bool {
    let m = QueueFlagSupportMatrix::from_flags(family.queue_flags);
    match kind {
        QueueKind::Graphics => m.graphics,
        QueueKind::Compute => m.compute,
        QueueKind::Transfer => m.transfer,
        QueueKind::Sparse => m.sparse,
        QueueKind::Present => surface && family.present_support,
    }
}

/// Whether the requirement asks for `kind`; presentation is required exactly
/// when a surface takes part.
pub open spec fn kind_required(required: QueueFlagSupportMatrix, kind: QueueKind, surface: bool) -> bool {
    match kind {
        QueueKind::Graphics => required.graphics,
        QueueKind::Compute => required.compute,
        QueueKind::Transfer => required.transfer,
        QueueKind::Sparse => required.sparse,
        QueueKind::Present => surface,
    }
}

/// `slot` holds the first index of `families` whose family offers `kind`, or
/// nothing when none does.
pub open spec fn is_first_family(
    slot: Option<u32>,
    families: Seq<QueueFamilyInfo>,
    kind: QueueKind,
    surface: bool,
) -> bool {
    match slot {
        Some(i) => {
            &&& i < families.len()
            &&& family_supports(families[i as int], kind, surface)
            &&& forall|j: int| 0 <= j < i ==> !family_supports(#[trigger] families[j], kind, surface)
        },
        None => forall|j: int|
            0 <= j < families.len() ==> !family_supports(#[trigger] families[j], kind, surface),
    }
}

/// For each operation kind, the index of a queue family that offers it.
#[derive(Debug, Clone, Copy, PartialEq, Eq)]
pub struct QueueFamilyIndices {
    pub graphics_family: Option<u32>,
    pub compute_family: Option<u32>,
    pub transfer_family: Option<u32>,
    pub sparse_family: Option<u32>,
    pub present_family: Option<u32>,
    /// Whether a presentation surface took part in the resolution, which makes
    /// presentation a required slot.
    pub surface_bound: bool,
}

impl QueueFamilyIndices {
    pub open spec fn slot(self, kind: QueueKind) -> Option<u32> {
        match kind {
            QueueKind::Graphics => self.graphics_family,
            QueueKind::Compute => self.compute_family,
            QueueKind::Transfer => self.transfer_family,
            QueueKind::Sparse => self.sparse_family,
            QueueKind::Present => self.present_family,
        }
    }

    /// Every slot that `required` (and a bound surface) asks for holds an index.
    pub open spec fn complete_for(self, required: QueueFlagSupportMatrix) -> bool {
        forall|kind: QueueKind|
            kind_required(required, kind, self.surface_bound) ==> (#[trigger] self.slot(kind)) is Some
    }

    /// `self` is the first-fit resolution of `families`.
    pub open spec fn resolves(self, families: Seq<QueueFamilyInfo>, surface: bool) -> bool {
        &&& self.surface_bound == surface
        &&& forall|kind: QueueKind| is_first_family(#[trigger] self.slot(kind), families, kind, surface)
    }

    /// A resolution with no slot filled.
    pub fn empty(surface_bound: bool) -> (r: QueueFamilyIndices)
        ensures
            r.surface_bound == surface_bound,
            forall|kind: QueueKind| (#[trigger] r.slot(kind)) is None,
    {
        QueueFamilyIndices {
            graphics_family: None,
            compute_family: None,
            transfer_family: None,
            sparse_family: None,
            present_family: None,
            surface_bound,
        }
    }

    /// The first-fit resolution of an adapter's queue families.
    pub fn new(families: &Vec<QueueFamilyInfo>, surface: bool) -> (r: QueueFamilyIndices)
        requires
            families.len() <= u32::MAX,
        ensures
            r.resolves(families@, surface),
    {
        Self::create(families, surface)
    }

    /// Whether every required slot holds an index; presentation is required
    /// exactly when a surface took part.
    pub fn is_complete(&self, required_matrix: &QueueFlagSupportMatrix) -> (r: bool)
        ensures
            r == self.complete_for(*required_matrix),
    {
        let r = self.is_part_complete(required_matrix.graphics, self.graphics_family)
            && self.is_part_complete(required_matrix.transfer, self.transfer_family)
            && self.is_part_complete(required_matrix.sparse, self.sparse_family)
            && self.is_part_complete(required_matrix.compute, self.compute_family)
            && self.is_part_complete(self.surface_bound, self.present_family);
        assert(r == self.complete_for(*required_matrix)) by {
            if !r {
                if required_matrix.graphics && self.graphics_family is None {
                    assert(!(kind_required(*required_matrix, QueueKind::Graphics, self.surface_bound)
                        ==> self.slot(QueueKind::Graphics) is Some));
                } else if required_matrix.transfer && self.transfer_family is None {
                    assert(!(kind_required(*required_matrix, QueueKind::Transfer, self.surface_bound)
                        ==> self.slot(QueueKind::Transfer) is Some));
                } else if required_matrix.sparse && self.sparse_family is None {
                    assert(!(kind_required(*required_matrix, QueueKind::Sparse, self.surface_bound)
                        ==> self.slot(QueueKind::Sparse) is Some));
                } else if required_matrix.compute && self.compute_family is None {
                    assert(!(kind_required(*required_matrix, QueueKind::Compute, self.surface_bound)
                        ==> self.slot(QueueKind::Compute) is Some));
                } else {
                    assert(!(kind_required(*required_matrix, QueueKind::Present, self.surface_bound)
                        ==> self.slot(QueueKind::Present) is Some));
                }
            }
        }
        r
    }

    /// Resolves every slot to the first family that offers its kind, testing
    /// presentation only when a surface takes part.
    pub fn create(families: &Vec<QueueFamilyInfo>, surface: bool) -> (r: QueueFamilyIndices)
        requires
            families.len() <= u32::MAX,
        ensures
            r.resolves(families@, surface),
    {
        let mut indices = QueueFamilyIndices::empty(surface);
        let mut i: usize = 0;
        while i < families.len()
            invariant
                i <= families.len() <= u32::MAX,
                indices.surface_bound == surface,
                forall|kind: QueueKind|
                    is_first_family(#[trigger] indices.slot(kind), families@.take(i as int), kind, surface),
            decreases families.len() - i,
        {
            let family = families[i];
            let support_matrix = QueueFlagSupportMatrix::new(family.queue_flags);
            let idx = i as u32;
            let ghost prev = indices;
            indices.graphics_family = indices.mark_one(support_matrix.graphics, indices.graphics_family, idx);
            indices.compute_family = indices.mark_one(support_matrix.compute, indices.compute_family, idx);
            indices.transfer_family = indices.mark_one(support_matrix.transfer, indices.transfer_family, idx);
            indices.sparse_family = indices.mark_one(support_matrix.sparse, indices.sparse_family, idx);
            let present_support = surface && family.present_support;
            indices.present_family = indices.mark_one(present_support, indices.present_family, idx);
            proof {
                let before = families@.take(i as int);
                let after = families@.take(i + 1);
                assert(after == before.push(family));
                assert forall|kind: QueueKind| is_first_family(#[trigger] indices.slot(kind), after, kind, surface) by {
                    assert(prev.slot(kind) is Some ==> indices.slot(kind) == prev.slot(kind));
                    assert(prev.slot(kind) is None ==> indices.slot(kind) == (if family_supports(family, kind, surface) {
                        Some(idx)
                    } else {
                        None::<u32>
                    }));
                    assert(is_first_family(prev.slot(kind), before, kind, surface));
                    assert forall|j: int| 0 <= j < before.len() implies after[j] == before[j] by {}
                    assert(after[i as int] == family);
                }
            }
            i += 1;
        }
        assert(families@.take(families.len() as int) == families@);
        indices
    }

    /// A slot is complete when it is not required or holds an index.
    pub fn is_part_complete(&self, required: bool, optional: Option<u32>) -> (r: bool)
        ensures
            r == (required ==> optional is Some),
    {
        if required {
            optional.is_some()
        } else {
            true
        }
    }

    /// The slot after looking at family `index`: a filled slot keeps its first
    /// index; an empty one takes `index` when the family offers the kind.
    pub fn mark_one(&self, is_available: bool, optional: Option<u32>, index: u32) -> (r: Option<u32>)
        ensures
            optional is Some ==> r == optional,
            optional is None ==> r == (if is_available { Some(index) } else { None::<u32> }),
    {
        match optional {
            Some(_) => optional,
            None => if is_available {
                Some(index)
            } else {
                None
            },
        }
    }
}

/// Every operation kind that `required` (and a surface, when one takes part)
/// asks for is offered by some family of `families`.
pub open spec fn offers_all(families: Seq<QueueFamilyInfo>, required: QueueFlagSupportMatrix, surface: bool) -> bool {
    forall|kind: QueueKind|
        #[trigger] kind_required(required, kind, surface) ==> exists|j: int|
            0 <= j < families.len() && family_supports(#[trigger] families[j], kind, surface)
}

/// The first-fit resolution of a topology is complete for a requirement exactly
/// when every required kind, and presentation when a surface takes part, is
/// offered by some family.
pub proof fn lemma_resolution_complete_iff_offered(
    indices: QueueFamilyIndices,
    families: Seq<QueueFamilyInfo>,
    surface: bool,
    required: QueueFlagSupportMatrix,
)
    requires
        indices.resolves(families, surface),
    ensures
        indices.complete_for(required) <==> offers_all(families, required, surface),
{
    assert forall|kind: QueueKind| #[trigger] indices.slot(kind) is Some <==> exists|j: int|
        0 <= j < families.len() && family_supports(#[trigger] families[j], kind, surface) by {
        assert(is_first_family(indices.slot(kind), families, kind, surface));
        if let Some(i) = indices.slot(kind) {
            assert(family_supports(families[i as int], kind, surface));
        }
    }
    if indices.complete_for(required) {
        assert forall|kind: QueueKind| #[trigger] kind_required(required, kind, surface) implies exists|j: int|
            0 <= j < families.len() && family_supports(#[trigger] families[j], kind, surface) by {
            assert(indices.slot(kind) is Some);
        }
    }
    if offers_all(families, required, surface) {
        assert forall|kind: QueueKind| kind_required(required, kind, indices.surface_bound) implies (
        #[trigger] indices.slot(kind)) is Some by {
            assert(kind_required(required, kind, surface));
        }
    }
}

/// Completeness reads only the required slots: two resolutions made with or
/// without a surface alike, which agree on which required slots hold an index,
/// are complete alike, whatever their other slots hold.
pub proof fn lemma_completeness_ignores_unrequired_slots(
    a: QueueFamilyIndices,
    b: QueueFamilyIndices,
    required: QueueFlagSupportMatrix,
)
    requires
        a.surface_bound == b.surface_bound,
        forall|kind: QueueKind|
            #[trigger] kind_required(required, kind, a.surface_bound) ==> (a.slot(kind) is Some
                <==> b.slot(kind) is Some),
    ensures
        a.complete_for(required) == b.complete_for(required),
{
    if a.complete_for(required) {
        assert forall|kind: QueueKind| kind_required(required, kind, b.surface_bound) implies (
        #[trigger] b.slot(kind)) is Some by {
            assert(a.slot(kind) is Some);
        }
    }
    if b.complete_for(required) {
        assert forall|kind: QueueKind| kind_required(required, kind, a.surface_bound) implies (
        #[trigger] a.slot(kind)) is Some by {
            assert(b.slot(kind) is Some);
        }
    }
}

/// Presentation is required exactly when a surface took part: once the four
/// operation kinds are settled, a resolution is complete iff it has no surface
/// or has a presenting family.
pub proof fn lemma_presentation_required_iff_surface(
    indices: QueueFamilyIndices,
    required: QueueFlagSupportMatrix,
)
    requires
        required.graphics ==> indices.graphics_family is Some,
        required.compute ==> indices.compute_family is Some,
        required.transfer ==> indices.transfer_family is Some,
        required.sparse ==> indices.sparse_family is Some,
    ensures
        indices.complete_for(required) <==> (indices.surface_bound ==> indices.present_family is Some),
{
    if indices.complete_for(required) {
        assert(kind_required(required, QueueKind::Present, indices.surface_bound) ==> indices.slot(
            QueueKind::Present,
        ) is Some);
    }
    if indices.surface_bound ==> indices.present_family is Some {
        assert forall|kind: QueueKind| kind_required(required, kind, indices.surface_bound) implies (
        #[trigger] indices.slot(kind)) is Some by {
            match kind {
                QueueKind::Graphics => {},
                QueueKind::Compute => {},
                QueueKind::Transfer => {},
                QueueKind::Sparse => {},
                QueueKind::Present => {},
            }
        }
    }
}

/// What the driver reports of one adapter, as far as selection reads it.
#[derive(Debug)]
pub struct AdapterInfo {
    pub device_id: u32,
    /// The adapter's packed `VkPhysicalDeviceProperties::apiVersion`.
    pub api_version: u32,
    pub features: DeviceFeatureSupportMatrix,
    pub queue_families: Vec<QueueFamilyInfo>,
}

/// The adapter offers every required queue operation kind (and presentation
/// when a surface takes part) and every required device feature.
pub open spec fn adapter_suitable(
    adapter: AdapterInfo,
    required: VulkanPhysicalDeviceConfig,
    surface: bool,
) -> bool {
    &&& offers_all(adapter.queue_families@, required.desired_queue_flags, surface)
    &&& adapter.features.satisfies(required.desired_device_features)
}

/// `i` is the first suitable adapter of `adapters` in enumeration order.
pub open spec fn is_first_suitable(
    adapters: Seq<AdapterInfo>,
    i: int,
    required: VulkanPhysicalDeviceConfig,
    surface: bool,
) -> bool {
    &&& 0 <= i < adapters.len()
    &&& adapter_suitable(adapters[i], required, surface)
    &&& forall|j: int| 0 <= j < i ==> !adapter_suitable(#[trigger] adapters[j], required, surface)
}

/// No adapter of `adapters` is suitable.
pub open spec fn none_suitable(
    adapters: Seq<AdapterInfo>,
    required: VulkanPhysicalDeviceConfig,
    surface: bool,
) -> bool {
    forall|j: int| 0 <= j < adapters.len() ==> !adapter_suitable(#[trigger] adapters[j], required, surface)
}

/// The suitable adapters of an enumeration, in enumeration order.
pub open spec fn suitable_adapters(
    adapters: Seq<AdapterInfo>,
    required: VulkanPhysicalDeviceConfig,
    surface: bool,
) -> Seq<AdapterInfo> {
    adapters.filter(|a: AdapterInfo| adapter_suitable(a, required, surface))
}

proof fn lemma_none_suitable_iff_no_suitable_adapters(
    adapters: Seq<AdapterInfo>,
    required: VulkanPhysicalDeviceConfig,
    surface: bool,
)
    ensures
        none_suitable(adapters, required, surface) <==> suitable_adapters(adapters, required, surface).len() == 0,
    decreases adapters.len(),
{
    reveal(Seq::filter);
    if adapters.len() > 0 {
        let rest = adapters.drop_last();
        lemma_none_suitable_iff_no_suitable_adapters(rest, required, surface);
        assert(suitable_adapters(rest, required, surface) == rest.filter(
            |a: AdapterInfo| adapter_suitable(a, required, surface),
        ));
        if none_suitable(adapters, required, surface) {
            assert forall|j: int| 0 <= j < rest.len() implies !adapter_suitable(#[trigger] rest[j], required, surface) by {
                assert(rest[j] == adapters[j]);
            }
        }
        if suitable_adapters(adapters, required, surface).len() == 0 {
            assert(!adapter_suitable(adapters.last(), required, surface));
            assert forall|j: int| 0 <= j < adapters.len() implies !adapter_suitable(
                #[trigger] adapters[j],
                required,
                surface,
            ) by {
                if j < adapters.len() - 1 {
                    assert(rest[j] == adapters[j]);
                }
            }
        }
    }
}

proof fn lemma_first_suitable_heads_suitable_adapters(
    adapters: Seq<AdapterInfo>,
    i: int,
    required: VulkanPhysicalDeviceConfig,
    surface: bool,
)
    requires
        is_first_suitable(adapters, i, required, surface),
    ensures
        suitable_adapters(adapters, required, surface).len() > 0,
        suitable_adapters(adapters, required, surface)[0] == adapters[i],
    decreases adapters.len(),
{
    reveal(Seq::filter);
    let rest = adapters.drop_last();
    assert(suitable_adapters(rest, required, surface) == rest.filter(
        |a: AdapterInfo| adapter_suitable(a, required, surface),
    ));
    if i == adapters.len() - 1 {
        assert forall|j: int| 0 <= j < rest.len() implies !adapter_suitable(#[trigger] rest[j], required, surface) by {
            assert(rest[j] == adapters[j]);
        }
        lemma_none_suitable_iff_no_suitable_adapters(rest, required, surface);
    } else {
        assert forall|j: int| 0 <= j < i implies !adapter_suitable(#[trigger] rest[j], required, surface) by {
            assert(rest[j] == adapters[j]);
        }
        assert(rest[i] == adapters[i]);
        lemma_first_suitable_heads_suitable_adapters(rest, i, required, surface);
    }
}

/// Selection depends only on the suitable adapters and their order: two
/// enumerations that differ only in where their unsuitable adapters stand both
/// fail, or both pick the same adapter.
pub proof fn lemma_selection_ignores_unsuitable_order(
    a: Seq<AdapterInfo>,
    b: Seq<AdapterInfo>,
    required: VulkanPhysicalDeviceConfig,
    surface: bool,
)
    requires
        suitable_adapters(a, required, surface) == suitable_adapters(b, required, surface),
    ensures
        none_suitable(a, required, surface) <==> none_suitable(b, required, surface),
        forall|i: int, j: int|
            is_first_suitable(a, i, required, surface) && is_first_suitable(b, j, required, surface)
                ==> a[i] == b[j],
{
    lemma_none_suitable_iff_no_suitable_adapters(a, required, surface);
    lemma_none_suitable_iff_no_suitable_adapters(b, required, surface);
    assert forall|i: int, j: int|
        is_first_suitable(a, i, required, surface) && is_first_suitable(b, j, required, surface) implies a[i]
        == b[j] by {
        lemma_first_suitable_heads_suitable_adapters(a, i, required, surface);
        lemma_first_suitable_heads_suitable_adapters(b, j, required, surface);
    }
}

/// An enumeration with exactly one suitable adapter selects it, and without it
/// selects nothing.
pub proof fn lemma_removing_sole_suitable_adapter(
    adapters: Seq<AdapterInfo>,
    i: int,
    required: VulkanPhysicalDeviceConfig,
    surface: bool,
)
    requires
        0 <= i < adapters.len(),
        adapter_suitable(adapters[i], required, surface),
        forall|j: int|
            0 <= j < adapters.len() && j != i ==> !adapter_suitable(#[trigger] adapters[j], required, surface),
    ensures
        is_first_suitable(adapters, i, required, surface),
        none_suitable(adapters.remove(i), required, surface),
{
    let rest = adapters.remove(i);
    assert forall|j: int| 0 <= j < rest.len() implies !adapter_suitable(#[trigger] rest[j], required, surface) by {
        if j < i {
            assert(rest[j] == adapters[j]);
        } else {
            assert(rest[j] == adapters[j + 1]);
        }
    }
}

/// Whether an adapter fits the requirement; presentation is tested only when a
/// surface takes part.
pub fn is_device_suitable(
    adapter: &AdapterInfo,
    required: &VulkanPhysicalDeviceConfig,
    surface: bool,
) -> (r: bool)
    requires
        adapter.queue_families.len() <= u32::MAX,
    ensures
        r == adapter_suitable(*adapter, *required, surface),
{
    let indices = QueueFamilyIndices::new(&adapter.queue_families, surface);
    proof {
        lemma_resolution_complete_iff_offered(
            indices,
            adapter.queue_families@,
            surface,
            required.desired_queue_flags,
        );
    }
    indices.is_complete(&required.desired_queue_flags) && adapter.features.covers(
        &required.desired_device_features,
    )
}

/// The adapter chosen for the context: its place in the enumeration and its
/// queue family resolution. The adapter itself is borrowed from the driver,
/// never owned.
#[derive(Debug, Clone, Copy, PartialEq, Eq)]
pub struct VulkanPhysicalDevice {
    pub index: usize,
    pub queue_family_indices: QueueFamilyIndices,
}

impl VulkanPhysicalDevice {
    /// First-fit selection: the first adapter in enumeration order that is
    /// suitable, with its resolution; `NoSuitableAdapter` when none is.
    pub fn new(
        adapters: &Vec<AdapterInfo>,
        config: &VulkanPhysicalDeviceConfig,
        surface: bool,
    ) -> (r: Result<VulkanPhysicalDevice, BootstrapError>)
        requires
            forall|i: int| 0 <= i < adapters.len() ==> (#[trigger] adapters@[i]).queue_families.len() <= u32::MAX,
        ensures
            match r {
                Ok(d) => {
                    &&& is_first_suitable(adapters@, d.index as int, *config, surface)
                    &&& d.queue_family_indices.resolves(adapters@[d.index as int].queue_families@, surface)
                },
                Err(e) => e == BootstrapError::NoSuitableAdapter && none_suitable(adapters@, *config, surface),
            },
    {
        let mut i: usize = 0;
        while i < adapters.len()
            invariant
                i <= adapters.len(),
                forall|k: int| 0 <= k < adapters.len() ==> (#[trigger] adapters@[k]).queue_families.len() <= u32::MAX,
                forall|j: int| 0 <= j < i ==> !adapter_suitable(#[trigger] adapters@[j], *config, surface),
            decreases adapters.len() - i,
        {
            let adapter = &adapters[i];
            if is_device_suitable(adapter, config, surface) {
                let indices = QueueFamilyIndices::create(&adapter.queue_families, surface);
                return Ok(VulkanPhysicalDevice { index: i, queue_family_indices: indices });
            }
            i += 1;
        }
        Err(BootstrapError::NoSuitableAdapter)
    }

    /// The selected adapter's place in the enumeration.
    pub fn get(&self) -> (r: usize)
        ensures
            r == self.index,
    {
        self.index
    }
}

} // verus!
