//! Which kernels compute the derived fields, in what order, and from which
//! inputs.
use crate::derived::recipes::DerivedRecipe;
use crate::derived::requirements;
use crate::derived::requirements::{derived_compute_recipes_need_pressure, DerivedRequirements};
use vstd::prelude::*;
use vstd::string::*;

verus! {

/// A kernel of the derived computation.
#[derive(Debug, Clone, Copy, PartialEq, Eq, Structural)]
pub enum DerivedKernel {
    /// All three parcels in one pass over the columns.
    CapeCinTriplet,
    SbcapeCin,
    MlcapeCin,
    MucapeCin,
    Dcape,
    SurfaceThermo,
    LiftedIndex,
    LapseRate700500,
    LapseRate03km,
    Shear01km,
    Shear06km,
    Srh01km,
    Srh03km,
    /// The mean distance between neighbouring cells.
    GridSpacing,
    TemperatureAdvection700mb,
    TemperatureAdvection850mb,
    Ehi01km,
    Ehi03km,
    StpFixed,
    ScpMu03km06kmProxy,
}

impl DerivedKernel {
    /// Whether the kernel reads the pressure, temperature, moisture and height
    /// volumes.
    pub open spec fn reads_volume(self) -> bool {
        match self {
            DerivedKernel::CapeCinTriplet
            | DerivedKernel::SbcapeCin
            | DerivedKernel::MlcapeCin
            | DerivedKernel::MucapeCin
            | DerivedKernel::Dcape
            | DerivedKernel::LiftedIndex
            | DerivedKernel::LapseRate700500
            | DerivedKernel::LapseRate03km => true,
            _ => false,
        }
    }

    /// Whether the kernel reads the wind volumes over the height volume.
    pub open spec fn reads_wind_profile(self) -> bool {
        match self {
            DerivedKernel::Shear01km
            | DerivedKernel::Shear06km
            | DerivedKernel::Srh01km
            | DerivedKernel::Srh03km => true,
            _ => false,
        }
    }

    /// Whether the kernel reads the wind volumes.
    pub open spec fn reads_winds(self) -> bool {
        self.reads_wind_profile() || self == DerivedKernel::TemperatureAdvection700mb || self
            == DerivedKernel::TemperatureAdvection850mb
    }

    /// Whether the kernel combines fields of other kernels.
    pub open spec fn is_composite(self) -> bool {
        match self {
            DerivedKernel::Ehi01km
            | DerivedKernel::Ehi03km
            | DerivedKernel::StpFixed
            | DerivedKernel::ScpMu03km06kmProxy => true,
            _ => false,
        }
    }

    /// Whether the kernel runs for a set of needs.
    pub open spec fn runs_for(self, needs: DerivedRequirements) -> bool {
        let triplet = needs.sb && needs.ml && needs.mu;
        match self {
            DerivedKernel::CapeCinTriplet => triplet,
            DerivedKernel::SbcapeCin => needs.sb && !triplet,
            DerivedKernel::MlcapeCin => needs.ml && !triplet,
            DerivedKernel::MucapeCin => needs.mu && !triplet,
            DerivedKernel::Dcape => needs.dcape,
            DerivedKernel::SurfaceThermo => needs.surface_thermo,
            DerivedKernel::LiftedIndex => needs.lifted_index,
            DerivedKernel::LapseRate700500 => needs.lapse_rate_700_500,
            DerivedKernel::LapseRate03km => needs.lapse_rate_0_3km,
            DerivedKernel::Shear01km => needs.shear_01km,
            DerivedKernel::Shear06km => needs.shear_06km,
            DerivedKernel::Srh01km => needs.srh_01km,
            DerivedKernel::Srh03km => needs.srh_03km,
            DerivedKernel::GridSpacing => needs.spec_needs_grid_spacing(),
            DerivedKernel::TemperatureAdvection700mb => needs.temperature_advection_700mb,
            DerivedKernel::TemperatureAdvection850mb => needs.temperature_advection_850mb,
            DerivedKernel::Ehi01km => needs.ehi_01km,
            DerivedKernel::Ehi03km => needs.ehi_03km,
            DerivedKernel::StpFixed => needs.stp_fixed,
            DerivedKernel::ScpMu03km06kmProxy => needs.scp_mu_03km_06km_proxy,
        }
    }
}

/// The kernels of a list that run for a set of needs, in the list's order.
pub open spec fn running(kernels: Seq<DerivedKernel>, needs: DerivedRequirements) -> Seq<
    DerivedKernel,
>
    decreases kernels.len(),
{
    if kernels.len() == 0 {
        Seq::empty()
    } else {
        let before = running(kernels.drop_last(), needs);
        if kernels.last().runs_for(needs) {
            before.push(kernels.last())
        } else {
            before
        }
    }
}

/// The parcel kernels.
pub open spec fn parcel_order() -> Seq<DerivedKernel> {
    seq![
        DerivedKernel::CapeCinTriplet,
        DerivedKernel::SbcapeCin,
        DerivedKernel::MlcapeCin,
        DerivedKernel::MucapeCin,
    ]
}

/// The kernels that read neither parcels nor wind volumes.
pub open spec fn thermodynamic_order() -> Seq<DerivedKernel> {
    seq![
        DerivedKernel::Dcape,
        DerivedKernel::SurfaceThermo,
        DerivedKernel::LiftedIndex,
        DerivedKernel::LapseRate700500,
        DerivedKernel::LapseRate03km,
    ]
}

/// The kernels that read the wind volumes, and the grid spacing that two of
/// them need.
pub open spec fn wind_order() -> Seq<DerivedKernel> {
    seq![
        DerivedKernel::Shear01km,
        DerivedKernel::Shear06km,
        DerivedKernel::Srh01km,
        DerivedKernel::Srh03km,
        DerivedKernel::GridSpacing,
        DerivedKernel::TemperatureAdvection700mb,
        DerivedKernel::TemperatureAdvection850mb,
    ]
}

/// The kernels that combine fields of other kernels.
pub open spec fn composite_order() -> Seq<DerivedKernel> {
    seq![
        DerivedKernel::Ehi01km,
        DerivedKernel::Ehi03km,
        DerivedKernel::StpFixed,
        DerivedKernel::ScpMu03km06kmProxy,
    ]
}

fn runs(kernel: DerivedKernel, needs: DerivedRequirements) -> (runs: bool)
    ensures
        runs == kernel.runs_for(needs),
{
    let triplet = needs.sb && needs.ml && needs.mu;
    match kernel {
        DerivedKernel::CapeCinTriplet => triplet,
        DerivedKernel::SbcapeCin => needs.sb && !triplet,
        DerivedKernel::MlcapeCin => needs.ml && !triplet,
        DerivedKernel::MucapeCin => needs.mu && !triplet,
        DerivedKernel::Dcape => needs.dcape,
        DerivedKernel::SurfaceThermo => needs.surface_thermo,
        DerivedKernel::LiftedIndex => needs.lifted_index,
        DerivedKernel::LapseRate700500 => needs.lapse_rate_700_500,
        DerivedKernel::LapseRate03km => needs.lapse_rate_0_3km,
        DerivedKernel::Shear01km => needs.shear_01km,
        DerivedKernel::Shear06km => needs.shear_06km,
        DerivedKernel::Srh01km => needs.srh_01km,
        DerivedKernel::Srh03km => needs.srh_03km,
        DerivedKernel::GridSpacing => needs.needs_grid_spacing(),
        DerivedKernel::TemperatureAdvection700mb => needs.temperature_advection_700mb,
        DerivedKernel::TemperatureAdvection850mb => needs.temperature_advection_850mb,
        DerivedKernel::Ehi01km => needs.ehi_01km,
        DerivedKernel::Ehi03km => needs.ehi_03km,
        DerivedKernel::StpFixed => needs.stp_fixed,
        DerivedKernel::ScpMu03km06kmProxy => needs.scp_mu_03km_06km_proxy,
    }
}

fn select(kernels: &[DerivedKernel], needs: DerivedRequirements) -> (selected: Vec<DerivedKernel>)
    ensures
        selected@ == running(kernels@, needs),
{
    let mut selected: Vec<DerivedKernel> = Vec::new();
    let mut i: usize = 0;
    while i < kernels.len()
        invariant
            i <= kernels@.len(),
            selected@ == running(kernels@.take(i as int), needs),
        decreases kernels@.len() - i,
    {
        proof {
            assert(kernels@.take(i + 1).drop_last() == kernels@.take(i as int));
        }
        if runs(kernels[i], needs) {
            selected.push(kernels[i]);
        }
        i = i + 1;
    }
    proof {
        assert(kernels@.take(i as int) == kernels@);
    }
    selected
}

/// The parcel kernels that run, in order. When all three parcels are needed,
/// one pass computes them together.
pub fn parcel_kernels(needs: DerivedRequirements) -> (kernels: Vec<DerivedKernel>)
    ensures
        kernels@ == running(parcel_order(), needs),
{
    let order = [
        DerivedKernel::CapeCinTriplet,
        DerivedKernel::SbcapeCin,
        DerivedKernel::MlcapeCin,
        DerivedKernel::MucapeCin,
    ];
    proof {
        assert(order@ =~= parcel_order());
    }
    select(&order, needs)
}

/// The kernels that run beside the parcel kernels and read no wind volume.
pub fn thermodynamic_kernels(needs: DerivedRequirements) -> (kernels: Vec<DerivedKernel>)
    ensures
        kernels@ == running(thermodynamic_order(), needs),
{
    let order = [
        DerivedKernel::Dcape,
        DerivedKernel::SurfaceThermo,
        DerivedKernel::LiftedIndex,
        DerivedKernel::LapseRate700500,
        DerivedKernel::LapseRate03km,
    ];
    proof {
        assert(order@ =~= thermodynamic_order());
    }
    select(&order, needs)
}

/// The kernels that read the wind volumes, in the order in which they run
/// before the wind volumes are given up.
pub fn wind_kernels(needs: DerivedRequirements) -> (kernels: Vec<DerivedKernel>)
    ensures
        kernels@ == running(wind_order(), needs),
{
    let order = [
        DerivedKernel::Shear01km,
        DerivedKernel::Shear06km,
        DerivedKernel::Srh01km,
        DerivedKernel::Srh03km,
        DerivedKernel::GridSpacing,
        DerivedKernel::TemperatureAdvection700mb,
        DerivedKernel::TemperatureAdvection850mb,
    ];
    proof {
        assert(order@ =~= wind_order());
    }
    select(&order, needs)
}

/// The composite kernels that run, in order.
pub fn composite_kernels(needs: DerivedRequirements) -> (kernels: Vec<DerivedKernel>)
    ensures
        kernels@ == running(composite_order(), needs),
{
    let order = [
        DerivedKernel::Ehi01km,
        DerivedKernel::Ehi03km,
        DerivedKernel::StpFixed,
        DerivedKernel::ScpMu03km06kmProxy,
    ];
    proof {
        assert(order@ =~= composite_order());
    }
    select(&order, needs)
}

/// The volumes are needed exactly when a kernel that reads them runs, the heights exactly
/// when one that reads the volumes or a profile of winds does, and the distances of cells
/// exactly when a temperature advection does.
pub proof fn law_needs_are_what_running_kernels_read(needs: DerivedRequirements)
    ensures
        needs.spec_needs_volume() <==> exists|kernel: DerivedKernel|
            #[trigger] kernel.runs_for(needs) && kernel.reads_volume(),
        needs.spec_needs_height_agl() <==> exists|kernel: DerivedKernel|
            #[trigger] kernel.runs_for(needs) && (kernel.reads_volume()
                || kernel.reads_wind_profile()),
        needs.spec_needs_grid_spacing() <==> exists|kernel: DerivedKernel|
            #[trigger] kernel.runs_for(needs) && kernel.reads_winds()
                && !kernel.reads_wind_profile(),
        DerivedKernel::GridSpacing.runs_for(needs) <==> needs.spec_needs_grid_spacing(),
{
    if needs.sb && needs.ml && needs.mu {
        assert(DerivedKernel::CapeCinTriplet.runs_for(needs));
    } else if needs.sb {
        assert(DerivedKernel::SbcapeCin.runs_for(needs));
    } else if needs.ml {
        assert(DerivedKernel::MlcapeCin.runs_for(needs));
    } else if needs.mu {
        assert(DerivedKernel::MucapeCin.runs_for(needs));
    }
    assert(DerivedKernel::Dcape.runs_for(needs) == needs.dcape);
    assert(DerivedKernel::LiftedIndex.runs_for(needs) == needs.lifted_index);
    assert(DerivedKernel::LapseRate700500.runs_for(needs) == needs.lapse_rate_700_500);
    assert(DerivedKernel::LapseRate03km.runs_for(needs) == needs.lapse_rate_0_3km);
    assert(DerivedKernel::Shear01km.runs_for(needs) == needs.shear_01km);
    assert(DerivedKernel::Shear06km.runs_for(needs) == needs.shear_06km);
    assert(DerivedKernel::Srh01km.runs_for(needs) == needs.srh_01km);
    assert(DerivedKernel::Srh03km.runs_for(needs) == needs.srh_03km);
    assert(DerivedKernel::TemperatureAdvection700mb.runs_for(needs)
        == needs.temperature_advection_700mb);
    assert(DerivedKernel::TemperatureAdvection850mb.runs_for(needs)
        == needs.temperature_advection_850mb);
}

/// A parcel that is needed is lifted by exactly one kernel: by the one that lifts all three
/// where all three are needed, and else by its own.
pub proof fn law_each_needed_parcel_is_lifted_once(needs: DerivedRequirements)
    ensures
        needs.sb == (DerivedKernel::CapeCinTriplet.runs_for(needs)
            != DerivedKernel::SbcapeCin.runs_for(needs)),
        needs.ml == (DerivedKernel::CapeCinTriplet.runs_for(needs)
            != DerivedKernel::MlcapeCin.runs_for(needs)),
        needs.mu == (DerivedKernel::CapeCinTriplet.runs_for(needs)
            != DerivedKernel::MucapeCin.runs_for(needs)),
        DerivedKernel::CapeCinTriplet.runs_for(needs) ==> !DerivedKernel::SbcapeCin.runs_for(needs)
            && !DerivedKernel::MlcapeCin.runs_for(needs) && !DerivedKernel::MucapeCin.runs_for(
            needs,
        ),
        needs.sb && needs.ml && needs.mu ==> DerivedKernel::CapeCinTriplet.runs_for(needs),
{
}

pub proof fn lemma_running_of_two(
    first: Seq<DerivedKernel>,
    second: Seq<DerivedKernel>,
    needs: DerivedRequirements,
)
    ensures
        running(first + second, needs) == running(first, needs) + running(second, needs),
    decreases second.len(),
{
    if second.len() == 0 {
        assert(first + second == first);
        assert(running(first, needs) + running(second, needs) == running(first, needs));
    } else {
        lemma_running_of_two(first, second.drop_last(), needs);
        assert((first + second).drop_last() == first + second.drop_last());
        assert((first + second).last() == second.last());
    }
}

/// A kernel is among those of a list that run exactly when it is in the list
/// and runs.
pub proof fn law_running_kernels_are_the_needed_ones(
    kernels: Seq<DerivedKernel>,
    needs: DerivedRequirements,
    kernel: DerivedKernel,
)
    ensures
        running(kernels, needs).contains(kernel) <==> kernels.contains(kernel) && kernel.runs_for(
            needs,
        ),
    decreases kernels.len(),
{
    if kernels.len() > 0 {
        let rest = kernels.drop_last();
        law_running_kernels_are_the_needed_ones(rest, needs, kernel);
        let before = running(rest, needs);
        if rest.contains(kernel) {
            let i = choose|i: int| 0 <= i < rest.len() && rest[i] == kernel;
            assert(kernels[i] == kernel);
        }
        if kernels.contains(kernel) && !rest.contains(kernel) {
            let i = choose|i: int| 0 <= i < kernels.len() && kernels[i] == kernel;
            assert(i == kernels.len() - 1) by {
                if i < rest.len() {
                    assert(rest[i] == kernel);
                }
            }
        }
        if kernels.last() == kernel {
            assert(kernels[kernels.len() - 1] == kernel);
        }
        if kernels.last().runs_for(needs) {
            let after = before.push(kernels.last());
            if before.contains(kernel) {
                let i = choose|i: int| 0 <= i < before.len() && before[i] == kernel;
                assert(after[i] == kernel);
            }
            assert(after[after.len() - 1] == kernels.last());
            if after.contains(kernel) && !before.contains(kernel) {
                let i = choose|i: int| 0 <= i < after.len() && after[i] == kernel;
                if i < before.len() {
                    assert(before[i] == kernel);
                }
            }
        }
    }
}

/// Running the wind kernels first and the others afterwards runs the same
/// kernels as running them together.
pub proof fn law_wind_first_runs_the_same_kernels(needs: DerivedRequirements)
    ensures
        running(wind_order() + thermodynamic_order(), needs).to_multiset() == running(
            thermodynamic_order() + wind_order(),
            needs,
        ).to_multiset(),
{
    let winds = running(wind_order(), needs);
    let rest = running(thermodynamic_order(), needs);
    lemma_running_of_two(wind_order(), thermodynamic_order(), needs);
    lemma_running_of_two(thermodynamic_order(), wind_order(), needs);
    vstd::seq_lib::lemma_multiset_commutative(winds, rest);
    vstd::seq_lib::lemma_multiset_commutative(rest, winds);
    assert(winds.to_multiset().add(rest.to_multiset()) =~= rest.to_multiset().add(
        winds.to_multiset(),
    ));
}

/// No kernel that runs after the wind kernels reads a wind volume: once those
/// have run, the wind volumes can be given up.
pub proof fn law_winds_are_read_only_by_wind_kernels(
    needs: DerivedRequirements,
    kernel: DerivedKernel,
)
    ensures
        running(parcel_order() + thermodynamic_order() + composite_order(), needs).contains(kernel)
            ==> !kernel.reads_winds(),
{
    let order = parcel_order() + thermodynamic_order() + composite_order();
    law_running_kernels_are_the_needed_ones(order, needs, kernel);
}

/// Every kernel that runs is in exactly one of the four orders.
pub proof fn law_every_needed_kernel_is_scheduled(needs: DerivedRequirements, kernel: DerivedKernel)
    ensures
        running(
            parcel_order() + thermodynamic_order() + wind_order() + composite_order(),
            needs,
        ).contains(kernel) <==> kernel.runs_for(needs),
        (parcel_order() + thermodynamic_order() + wind_order()
            + composite_order()).no_duplicates(),
{
    let order = parcel_order() + thermodynamic_order() + wind_order() + composite_order();
    law_running_kernels_are_the_needed_ones(order, needs, kernel);
    let index: int = match kernel {
        DerivedKernel::CapeCinTriplet => 0,
        DerivedKernel::SbcapeCin => 1,
        DerivedKernel::MlcapeCin => 2,
        DerivedKernel::MucapeCin => 3,
        DerivedKernel::Dcape => 4,
        DerivedKernel::SurfaceThermo => 5,
        DerivedKernel::LiftedIndex => 6,
        DerivedKernel::LapseRate700500 => 7,
        DerivedKernel::LapseRate03km => 8,
        DerivedKernel::Shear01km => 9,
        DerivedKernel::Shear06km => 10,
        DerivedKernel::Srh01km => 11,
        DerivedKernel::Srh03km => 12,
        DerivedKernel::GridSpacing => 13,
        DerivedKernel::TemperatureAdvection700mb => 14,
        DerivedKernel::TemperatureAdvection850mb => 15,
        DerivedKernel::Ehi01km => 16,
        DerivedKernel::Ehi03km => 17,
        DerivedKernel::StpFixed => 18,
        DerivedKernel::ScpMu03km06kmProxy => 19,
    };
    assert(order[index] == kernel);
}

/// The message for an input or a field that a kernel needs and that is absent.
pub open spec fn missing_message(name: Seq<char>) -> Seq<char> {
    "derived compute missing required dependency: "@ + name
}

/// The message for an input or a field that a kernel needs and that is absent.
pub fn missing_dependency(name: &str) -> (message: String)
    ensures
        message@ == missing_message(name@),
{
    "derived compute missing required dependency: ".to_owned().concat(name)
}

/// Starts a computation from surface fields alone, which is refused when some
/// recipe reads pressure fields.
pub fn plan_surface_only(recipes: &[DerivedRecipe]) -> (needs: Result<DerivedRequirements, String>)
    ensures
        match needs {
            Ok(needs) => {
                &&& needs == requirements::need_of_all(recipes@)
                &&& !needs.spec_needs_pressure_fields()
            },
            Err(message) => {
                &&& requirements::need_of_all(recipes@).spec_needs_pressure_fields()
                &&& message@
                    == "surface-only derived compute received a pressure-dependent recipe"@
            },
        },
{
    if derived_compute_recipes_need_pressure(recipes) {
        return Err(
            "surface-only derived compute received a pressure-dependent recipe".to_owned(),
        );
    }
    Ok(DerivedRequirements::from_recipes(recipes))
}

/// A computation from surface fields alone runs the surface kernel at most.
pub proof fn law_surface_only_runs_no_volume_kernel(
    needs: DerivedRequirements,
    kernel: DerivedKernel,
)
    requires
        !needs.spec_needs_pressure_fields(),
        kernel.runs_for(needs),
        !kernel.is_composite(),
    ensures
        kernel == DerivedKernel::SurfaceThermo,
{
}

} // verus!
