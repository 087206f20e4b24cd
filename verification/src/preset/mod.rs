//! The built-in theme, utilities and variants.
pub mod theme;
pub mod statics;
pub mod dynamics;
pub mod variants;

use vstd::prelude::*;
use crate::context::{Context, values_view};
use self::dynamics::{dynamic_keys, dynamic_utilities_of, load_dynamic_utilities};
use self::statics::{add_statics_view, load_static_utilities, static_rules, view_keys};
use self::theme::{has_preset_theme, load_theme, preset_theme};
use self::variants::{breakpoint_table, breakpoint_variants_of, create_variants, preset_variants};
use crate::theme::{distinct_keys, str_pairs_map};

verus! {

/// Loads the built-in theme, then the static and dynamic utilities, then the variants:
/// the utilities and variants registered are exactly the built-in ones, after those there before.
pub fn load_preset(ctx: &mut Context)
    requires
        old(ctx).wf(),
    ensures
        final(ctx).wf(),
        final(ctx).theme@ == preset_theme(old(ctx).theme@),
        has_preset_theme(final(ctx).theme@),
        final(ctx).utilities.spec_map().dom() == old(ctx).utilities.spec_map().dom().union(view_keys(static_rules())).union(
            dynamic_keys(),
        ),
        values_view(final(ctx).utilities.spec_map()) == dynamic_utilities_of(
            add_statics_view(values_view(old(ctx).utilities.spec_map()), static_rules()),
            final(ctx).theme@,
        ),
        (exists|bp: Seq<(String, String)>| {
            &&& distinct_keys(bp)
            &&& str_pairs_map(bp) == breakpoint_table(final(ctx).theme@)
            &&& final(ctx).variants.spec_map() == breakpoint_variants_of(preset_variants(old(ctx).variants.spec_map()), bp)
        }),
{
    load_theme(ctx);
    load_static_utilities(ctx);
    load_dynamic_utilities(ctx);
    create_variants(ctx);
}

} // verus!
