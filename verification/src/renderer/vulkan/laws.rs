//! What holds of the steps of every frame.

use vstd::prelude::*;
use crate::renderer::data::{Geometry, Registry, ShaderView};
use crate::renderer::parameters::Resolution;
use crate::renderer::player_viewport::PlayerViewport;
use crate::renderer::vulkan::frame::{
    bar_commands,
    cluster_for,
    desired_lightmap,
    draw_command,
    frame_commands,
    geometry_is_transparent,
    pass_bound,
    pass_commands,
    sky_commands,
    sky_of,
    split_screen_bars,
    viewport_commands,
    viewports_commands,
    CullMode,
    FrameCommand,
};

verus! {

/// How many of `commands` bind the matrices of a viewport.
pub open spec fn count_mvp_uploads(commands: Seq<FrameCommand>) -> nat
    decreases commands.len(),
{
    if commands.len() == 0 {
        0
    } else {
        count_mvp_uploads(commands.drop_last()) + if commands.last() is UploadMvp {
            1nat
        } else {
            0nat
        }
    }
}

/// Whether `command` lays one colour over a part of the surface: the
/// clearing at the beginning of the pass, a sky box, or a bar.
pub open spec fn is_color_fill(command: FrameCommand) -> bool {
    command is BeginRendering || command is DrawSkyBox || command is DrawBar
}

/// How many of `commands` lay one colour over a part of the surface.
pub open spec fn count_color_fills(commands: Seq<FrameCommand>) -> nat
    decreases commands.len(),
{
    if commands.len() == 0 {
        0
    } else {
        count_color_fills(commands.drop_last()) + if is_color_fill(commands.last()) {
            1nat
        } else {
            0nat
        }
    }
}

/// How many of the first `upto` viewports have their camera in a region
/// from which a sky is seen.
pub open spec fn count_skies_seen(
    registry: Registry,
    camera_clusters: Seq<Option<usize>>,
    upto: nat,
) -> nat
    decreases upto,
{
    if upto == 0 {
        0
    } else {
        count_skies_seen(registry, camera_clusters, (upto - 1) as nat) + if sky_of(
            registry,
            cluster_for(camera_clusters, upto - 1),
        ) is Some {
            1nat
        } else {
            0nat
        }
    }
}

/// The counts of one list of steps after another add up.
pub proof fn lemma_counts_add(first: Seq<FrameCommand>, second: Seq<FrameCommand>)
    ensures
        count_mvp_uploads(first + second) == count_mvp_uploads(first) + count_mvp_uploads(second),
        count_color_fills(first + second) == count_color_fills(first) + count_color_fills(second),
    decreases second.len(),
{
    if second.len() == 0 {
        assert(first + second =~= first);
    } else {
        lemma_counts_add(first, second.drop_last());
        assert((first + second).drop_last() =~= first + second.drop_last());
        assert((first + second).last() == second.last());
    }
}

/// One more step counts where it is of the kind that is counted.
pub proof fn lemma_counts_push(commands: Seq<FrameCommand>, command: FrameCommand)
    ensures
        count_mvp_uploads(commands.push(command)) == count_mvp_uploads(commands)
            + if command is UploadMvp {
            1nat
        } else {
            0nat
        },
        count_color_fills(commands.push(command)) == count_color_fills(commands) + if is_color_fill(
            command,
        ) {
            1nat
        } else {
            0nat
        },
{
    assert(commands.push(command).drop_last() =~= commands);
}

/// A pass binds no matrices and lays no colour.
pub proof fn lemma_pass_counts(
    shaders: Map<Seq<char>, ShaderView>,
    geometries: Seq<Geometry>,
    transparent: bool,
    fullbright: bool,
    bound: Option<Option<usize>>,
    upto: nat,
)
    ensures
        count_mvp_uploads(
            pass_commands(shaders, geometries, transparent, fullbright, bound, upto),
        ) == 0,
        count_color_fills(
            pass_commands(shaders, geometries, transparent, fullbright, bound, upto),
        ) == 0,
    decreases upto,
{
    if upto > 0 {
        let before = pass_commands(
            shaders,
            geometries,
            transparent,
            fullbright,
            bound,
            (upto - 1) as nat,
        );
        lemma_pass_counts(shaders, geometries, transparent, fullbright, bound, (upto - 1) as nat);
        let geometry = geometries[upto - 1];
        let desired = desired_lightmap(geometry, fullbright);
        let bind = FrameCommand::BindLightmap { lightmap: desired };
        let draw = draw_command(upto - 1, geometry, transparent);
        lemma_counts_push(before, draw);
        lemma_counts_push(before, bind);
        lemma_counts_push(before.push(bind), draw);
    }
}

/// The steps of one viewport bind its matrices once, and lay colour once
/// where a sky is seen and not at all where none is.
pub proof fn lemma_viewport_counts(
    registry: Registry,
    index: int,
    viewport: PlayerViewport,
    cluster: Option<usize>,
)
    ensures
        count_mvp_uploads(viewport_commands(registry, index, viewport, cluster)) == 1,
        count_color_fills(viewport_commands(registry, index, viewport, cluster)) == if sky_of(
            registry,
            cluster,
        ) is Some {
            1nat
        } else {
            0nat
        },
{
    let bsp = registry.drawn_bsp();
    let fullbright = viewport.camera.fullbright;
    let count = bsp.geometries.len();
    let set = seq![
        FrameCommand::SetViewport { viewport: index as usize },
        FrameCommand::SetCullMode { mode: CullMode::Disabled },
    ];
    let sky = sky_commands(registry, cluster);
    let upload = seq![FrameCommand::UploadMvp { viewport: index as usize }];
    let opaque = pass_commands(registry.shaders, bsp.geometries, false, fullbright, None, count);
    let transparent = pass_commands(
        registry.shaders,
        bsp.geometries,
        true,
        fullbright,
        pass_bound(registry.shaders, bsp.geometries, false, fullbright, None, count),
        count,
    );
    lemma_pass_counts(registry.shaders, bsp.geometries, false, fullbright, None, count);
    lemma_pass_counts(
        registry.shaders,
        bsp.geometries,
        true,
        fullbright,
        pass_bound(registry.shaders, bsp.geometries, false, fullbright, None, count),
        count,
    );
    lemma_counts_add(set, sky);
    lemma_counts_add(set + sky, upload);
    lemma_counts_add(set + sky + upload, opaque);
    lemma_counts_add(set + sky + upload + opaque, transparent);
    assert(count_mvp_uploads(set) == 0 && count_color_fills(set) == 0) by {
        reveal_with_fuel(count_mvp_uploads, 3);
        reveal_with_fuel(count_color_fills, 3);
    }
    assert(count_mvp_uploads(upload) == 1 && count_color_fills(upload) == 0) by {
        reveal_with_fuel(count_mvp_uploads, 2);
        reveal_with_fuel(count_color_fills, 2);
    }
    assert(count_mvp_uploads(sky) == 0 && count_color_fills(sky) == sky.len()) by {
        reveal_with_fuel(count_mvp_uploads, 2);
        reveal_with_fuel(count_color_fills, 2);
    }
}

/// The steps of the first `upto` viewports bind matrices once for each
/// viewport, and lay colour once for each viewport that sees a sky.
pub proof fn lemma_viewports_counts(
    registry: Registry,
    viewports: Seq<PlayerViewport>,
    camera_clusters: Seq<Option<usize>>,
    upto: nat,
)
    ensures
        count_mvp_uploads(viewports_commands(registry, viewports, camera_clusters, upto)) == upto,
        count_color_fills(viewports_commands(registry, viewports, camera_clusters, upto))
            == count_skies_seen(registry, camera_clusters, upto),
    decreases upto,
{
    if upto > 0 {
        lemma_viewports_counts(registry, viewports, camera_clusters, (upto - 1) as nat);
        lemma_viewport_counts(
            registry,
            upto - 1,
            viewports[upto - 1],
            cluster_for(camera_clusters, upto - 1),
        );
        lemma_counts_add(
            viewports_commands(registry, viewports, camera_clusters, (upto - 1) as nat),
            viewport_commands(
                registry,
                upto - 1,
                viewports[upto - 1],
                cluster_for(camera_clusters, upto - 1),
            ),
        );
    }
}

/// A frame binds matrices exactly once for each viewport. It lays colour
/// once to clear the surface, once for each viewport that sees a sky, and
/// once for each bar between the viewports.
pub proof fn lemma_frame_counts(
    registry: Registry,
    viewports: Seq<PlayerViewport>,
    resolution: Resolution,
    image_index: u32,
    camera_clusters: Seq<Option<usize>>,
)
    ensures
        count_mvp_uploads(
            frame_commands(registry, viewports, resolution, image_index, camera_clusters),
        ) == viewports.len(),
        count_color_fills(
            frame_commands(registry, viewports, resolution, image_index, camera_clusters),
        ) == 1 + count_skies_seen(registry, camera_clusters, viewports.len()) + split_screen_bars(
            viewports.len(),
            resolution,
        ).len(),
{
    let begin = seq![FrameCommand::BeginRendering { image_index }];
    let drawn = viewports_commands(registry, viewports, camera_clusters, viewports.len());
    let bars = bar_commands(viewports.len(), resolution);
    let end = seq![FrameCommand::EndRendering];
    lemma_viewports_counts(registry, viewports, camera_clusters, viewports.len());
    lemma_counts_add(begin, drawn);
    lemma_counts_add(begin + drawn, bars);
    lemma_counts_add(begin + drawn + bars, end);
    assert(count_mvp_uploads(begin) == 0 && count_color_fills(begin) == 1) by {
        reveal_with_fuel(count_mvp_uploads, 2);
        reveal_with_fuel(count_color_fills, 2);
    }
    assert(count_mvp_uploads(end) == 0 && count_color_fills(end) == 0) by {
        reveal_with_fuel(count_mvp_uploads, 2);
        reveal_with_fuel(count_color_fills, 2);
    }
    assert(count_mvp_uploads(bars) == 0 && count_color_fills(bars) == split_screen_bars(
        viewports.len(),
        resolution,
    ).len()) by {
        reveal_with_fuel(count_mvp_uploads, 4);
        reveal_with_fuel(count_color_fills, 4);
    }
}

/// With one to three viewports, or with four of which one at least sees a
/// sky, a frame lays colour at least once for each viewport.
pub proof fn lemma_frame_color_fills(
    registry: Registry,
    viewports: Seq<PlayerViewport>,
    resolution: Resolution,
    image_index: u32,
    camera_clusters: Seq<Option<usize>>,
)
    requires
        1 <= viewports.len() <= 4,
        viewports.len() == 4 ==> count_skies_seen(registry, camera_clusters, 4) >= 1,
    ensures
        count_color_fills(
            frame_commands(registry, viewports, resolution, image_index, camera_clusters),
        ) >= viewports.len(),
{
    lemma_frame_counts(registry, viewports, resolution, image_index, camera_clusters);
}

/// The geometries that `commands` draw, in the order in which they draw them.
pub open spec fn drawn_geometries(commands: Seq<FrameCommand>) -> Seq<usize>
    decreases commands.len(),
{
    if commands.len() == 0 {
        Seq::empty()
    } else {
        match commands.last() {
            FrameCommand::DrawGeometry { geometry, .. } => drawn_geometries(
                commands.drop_last(),
            ).push(geometry),
            _ => drawn_geometries(commands.drop_last()),
        }
    }
}

/// Those of the first `upto` geometries that belong to one pass, in the
/// order of the BSP.
pub open spec fn pass_geometries(
    shaders: Map<Seq<char>, ShaderView>,
    geometries: Seq<Geometry>,
    transparent: bool,
    upto: nat,
) -> Seq<usize>
    decreases upto,
{
    if upto == 0 {
        Seq::empty()
    } else if geometry_is_transparent(shaders, geometries[upto - 1]) == transparent {
        pass_geometries(shaders, geometries, transparent, (upto - 1) as nat).push(
            (upto - 1) as usize,
        )
    } else {
        pass_geometries(shaders, geometries, transparent, (upto - 1) as nat)
    }
}

/// What one list of steps draws and then another is what the first draws
/// and then what the second draws.
pub proof fn lemma_drawn_geometries_add(first: Seq<FrameCommand>, second: Seq<FrameCommand>)
    ensures
        drawn_geometries(first + second) == drawn_geometries(first) + drawn_geometries(second),
    decreases second.len(),
{
    if second.len() == 0 {
        assert(first + second =~= first);
        assert(drawn_geometries(first) + drawn_geometries(second) =~= drawn_geometries(first));
    } else {
        lemma_drawn_geometries_add(first, second.drop_last());
        assert((first + second).drop_last() =~= first + second.drop_last());
        assert((first + second).last() == second.last());
        let before = drawn_geometries(first) + drawn_geometries(second.drop_last());
        match second.last() {
            FrameCommand::DrawGeometry { geometry, .. } => {
                assert(before.push(geometry) =~= drawn_geometries(first) + drawn_geometries(
                    second.drop_last(),
                ).push(geometry));
            },
            _ => {},
        }
    }
}

/// One more step adds its geometry where it draws one.
pub proof fn lemma_drawn_geometries_push(commands: Seq<FrameCommand>, command: FrameCommand)
    ensures
        drawn_geometries(commands.push(command)) == match command {
            FrameCommand::DrawGeometry { geometry, .. } => drawn_geometries(commands).push(
                geometry,
            ),
            _ => drawn_geometries(commands),
        },
{
    assert(commands.push(command).drop_last() =~= commands);
}

/// A pass draws the geometries that belong to it, each once, in the order
/// of the BSP.
pub proof fn lemma_pass_draw_order(
    shaders: Map<Seq<char>, ShaderView>,
    geometries: Seq<Geometry>,
    transparent: bool,
    fullbright: bool,
    bound: Option<Option<usize>>,
    upto: nat,
)
    ensures
        drawn_geometries(
            pass_commands(shaders, geometries, transparent, fullbright, bound, upto),
        ) == pass_geometries(shaders, geometries, transparent, upto),
    decreases upto,
{
    if upto > 0 {
        let before = pass_commands(
            shaders,
            geometries,
            transparent,
            fullbright,
            bound,
            (upto - 1) as nat,
        );
        lemma_pass_draw_order(
            shaders,
            geometries,
            transparent,
            fullbright,
            bound,
            (upto - 1) as nat,
        );
        let geometry = geometries[upto - 1];
        let bind = FrameCommand::BindLightmap { lightmap: desired_lightmap(geometry, fullbright) };
        let draw = draw_command(upto - 1, geometry, transparent);
        lemma_drawn_geometries_push(before, draw);
        lemma_drawn_geometries_push(before, bind);
        lemma_drawn_geometries_push(before.push(bind), draw);
    }
}

/// Every geometry belongs to one of the two passes.
pub proof fn lemma_passes_share_the_geometries(
    shaders: Map<Seq<char>, ShaderView>,
    geometries: Seq<Geometry>,
    upto: nat,
)
    ensures
        pass_geometries(shaders, geometries, false, upto).len() + pass_geometries(
            shaders,
            geometries,
            true,
            upto,
        ).len() == upto,
    decreases upto,
{
    if upto > 0 {
        lemma_passes_share_the_geometries(shaders, geometries, (upto - 1) as nat);
    }
}

/// In a viewport the opaque geometries of the BSP are drawn before the
/// transparent ones, and those of either kind in the order of the BSP;
/// every geometry is drawn once.
pub proof fn lemma_viewport_draw_order(
    registry: Registry,
    index: int,
    viewport: PlayerViewport,
    cluster: Option<usize>,
)
    ensures
        drawn_geometries(viewport_commands(registry, index, viewport, cluster)) == pass_geometries(
            registry.shaders,
            registry.drawn_bsp().geometries,
            false,
            registry.drawn_bsp().geometries.len(),
        ) + pass_geometries(
            registry.shaders,
            registry.drawn_bsp().geometries,
            true,
            registry.drawn_bsp().geometries.len(),
        ),
        drawn_geometries(viewport_commands(registry, index, viewport, cluster)).len()
            == registry.drawn_bsp().geometries.len(),
{
    let bsp = registry.drawn_bsp();
    let fullbright = viewport.camera.fullbright;
    let count = bsp.geometries.len();
    let set = seq![
        FrameCommand::SetViewport { viewport: index as usize },
        FrameCommand::SetCullMode { mode: CullMode::Disabled },
    ];
    let sky = sky_commands(registry, cluster);
    let upload = seq![FrameCommand::UploadMvp { viewport: index as usize }];
    let bound = pass_bound(registry.shaders, bsp.geometries, false, fullbright, None, count);
    let opaque = pass_commands(registry.shaders, bsp.geometries, false, fullbright, None, count);
    let transparent = pass_commands(
        registry.shaders,
        bsp.geometries,
        true,
        fullbright,
        bound,
        count,
    );
    lemma_pass_draw_order(registry.shaders, bsp.geometries, false, fullbright, None, count);
    lemma_pass_draw_order(registry.shaders, bsp.geometries, true, fullbright, bound, count);
    lemma_passes_share_the_geometries(registry.shaders, bsp.geometries, count);
    lemma_drawn_geometries_add(set, sky);
    lemma_drawn_geometries_add(set + sky, upload);
    lemma_drawn_geometries_add(set + sky + upload, opaque);
    lemma_drawn_geometries_add(set + sky + upload + opaque, transparent);
    assert(drawn_geometries(set) =~= Seq::<usize>::empty()) by {
        reveal_with_fuel(drawn_geometries, 3);
    }
    assert(drawn_geometries(upload) =~= Seq::<usize>::empty()) by {
        reveal_with_fuel(drawn_geometries, 2);
    }
    assert(drawn_geometries(sky) =~= Seq::<usize>::empty()) by {
        reveal_with_fuel(drawn_geometries, 2);
    }
    assert(drawn_geometries(set + sky + upload + opaque + transparent) =~= drawn_geometries(opaque)
        + drawn_geometries(transparent));
}

/// The viewports that `commands` set, in the order in which they set them.
pub open spec fn viewports_set(commands: Seq<FrameCommand>) -> Seq<usize>
    decreases commands.len(),
{
    if commands.len() == 0 {
        Seq::empty()
    } else {
        match commands.last() {
            FrameCommand::SetViewport { viewport } => viewports_set(commands.drop_last()).push(
                viewport,
            ),
            _ => viewports_set(commands.drop_last()),
        }
    }
}

/// The viewports that one list of steps sets and then another are those
/// of the first and then those of the second.
pub proof fn lemma_viewports_set_add(first: Seq<FrameCommand>, second: Seq<FrameCommand>)
    ensures
        viewports_set(first + second) == viewports_set(first) + viewports_set(second),
    decreases second.len(),
{
    if second.len() == 0 {
        assert(first + second =~= first);
        assert(viewports_set(first) + viewports_set(second) =~= viewports_set(first));
    } else {
        lemma_viewports_set_add(first, second.drop_last());
        assert((first + second).drop_last() =~= first + second.drop_last());
        assert((first + second).last() == second.last());
        match second.last() {
            FrameCommand::SetViewport { viewport } => {
                assert((viewports_set(first) + viewports_set(second.drop_last())).push(viewport)
                    =~= viewports_set(first) + viewports_set(second.drop_last()).push(viewport));
            },
            _ => {},
        }
    }
}

/// One more step adds its viewport where it sets one.
pub proof fn lemma_viewports_set_push(commands: Seq<FrameCommand>, command: FrameCommand)
    ensures
        viewports_set(commands.push(command)) == match command {
            FrameCommand::SetViewport { viewport } => viewports_set(commands).push(viewport),
            _ => viewports_set(commands),
        },
{
    assert(commands.push(command).drop_last() =~= commands);
}

/// A pass sets no viewport.
pub proof fn lemma_pass_sets_no_viewport(
    shaders: Map<Seq<char>, ShaderView>,
    geometries: Seq<Geometry>,
    transparent: bool,
    fullbright: bool,
    bound: Option<Option<usize>>,
    upto: nat,
)
    ensures
        viewports_set(pass_commands(shaders, geometries, transparent, fullbright, bound, upto))
            == Seq::<usize>::empty(),
    decreases upto,
{
    if upto > 0 {
        let before = pass_commands(
            shaders,
            geometries,
            transparent,
            fullbright,
            bound,
            (upto - 1) as nat,
        );
        lemma_pass_sets_no_viewport(
            shaders,
            geometries,
            transparent,
            fullbright,
            bound,
            (upto - 1) as nat,
        );
        let geometry = geometries[upto - 1];
        let bind = FrameCommand::BindLightmap { lightmap: desired_lightmap(geometry, fullbright) };
        let draw = draw_command(upto - 1, geometry, transparent);
        lemma_viewports_set_push(before, draw);
        lemma_viewports_set_push(before, bind);
        lemma_viewports_set_push(before.push(bind), draw);
    }
}

/// A frame sets each viewport once, in the order in which the viewports
/// stand, the first one first.
pub proof fn lemma_frame_viewport_order(
    registry: Registry,
    viewports: Seq<PlayerViewport>,
    resolution: Resolution,
    image_index: u32,
    camera_clusters: Seq<Option<usize>>,
)
    requires
        viewports.len() <= usize::MAX,
    ensures
        viewports_set(
            frame_commands(registry, viewports, resolution, image_index, camera_clusters),
        ) == Seq::new(viewports.len(), |i: int| i as usize),
{
    let begin = seq![FrameCommand::BeginRendering { image_index }];
    let drawn = viewports_commands(registry, viewports, camera_clusters, viewports.len());
    let bars = bar_commands(viewports.len(), resolution);
    let end = seq![FrameCommand::EndRendering];
    lemma_viewports_in_order(registry, viewports, camera_clusters, viewports.len());
    lemma_viewports_set_add(begin, drawn);
    lemma_viewports_set_add(begin + drawn, bars);
    lemma_viewports_set_add(begin + drawn + bars, end);
    assert(viewports_set(begin) =~= Seq::<usize>::empty()) by {
        reveal_with_fuel(viewports_set, 2);
    }
    assert(viewports_set(end) =~= Seq::<usize>::empty()) by {
        reveal_with_fuel(viewports_set, 2);
    }
    assert(viewports_set(bars) =~= Seq::<usize>::empty()) by {
        reveal_with_fuel(viewports_set, 4);
    }
    assert(viewports_set(begin + drawn + bars + end) =~= viewports_set(drawn));
}

/// The steps of the first `upto` viewports set those viewports in order.
pub proof fn lemma_viewports_in_order(
    registry: Registry,
    viewports: Seq<PlayerViewport>,
    camera_clusters: Seq<Option<usize>>,
    upto: nat,
)
    requires
        upto <= usize::MAX,
    ensures
        viewports_set(viewports_commands(registry, viewports, camera_clusters, upto)) == Seq::new(
            upto,
            |i: int| i as usize,
        ),
    decreases upto,
{
    if upto == 0 {
        assert(viewports_set(viewports_commands(registry, viewports, camera_clusters, upto))
            =~= Seq::new(upto, |i: int| i as usize));
    } else {
        let index = upto - 1;
        let viewport = viewports[index];
        let cluster = cluster_for(camera_clusters, index);
        lemma_viewports_in_order(registry, viewports, camera_clusters, index as nat);
        let bsp = registry.drawn_bsp();
        let fullbright = viewport.camera.fullbright;
        let count = bsp.geometries.len();
        let set = seq![
            FrameCommand::SetViewport { viewport: index as usize },
            FrameCommand::SetCullMode { mode: CullMode::Disabled },
        ];
        let sky = sky_commands(registry, cluster);
        let upload = seq![FrameCommand::UploadMvp { viewport: index as usize }];
        let bound = pass_bound(registry.shaders, bsp.geometries, false, fullbright, None, count);
        let opaque = pass_commands(
            registry.shaders,
            bsp.geometries,
            false,
            fullbright,
            None,
            count,
        );
        let transparent = pass_commands(
            registry.shaders,
            bsp.geometries,
            true,
            fullbright,
            bound,
            count,
        );
        lemma_pass_sets_no_viewport(registry.shaders, bsp.geometries, false, fullbright, None, count);
        lemma_pass_sets_no_viewport(registry.shaders, bsp.geometries, true, fullbright, bound, count);
        lemma_viewports_set_add(set, sky);
        lemma_viewports_set_add(set + sky, upload);
        lemma_viewports_set_add(set + sky + upload, opaque);
        lemma_viewports_set_add(set + sky + upload + opaque, transparent);
        assert(viewports_set(set) =~= seq![index as usize]) by {
            reveal_with_fuel(viewports_set, 3);
        }
        assert(viewports_set(upload) =~= Seq::<usize>::empty()) by {
            reveal_with_fuel(viewports_set, 2);
        }
        assert(viewports_set(sky) =~= Seq::<usize>::empty()) by {
            reveal_with_fuel(viewports_set, 2);
        }
        let before = viewports_commands(registry, viewports, camera_clusters, index as nat);
        let own = viewport_commands(registry, index, viewport, cluster);
        assert(own == set + sky + upload + opaque + transparent);
        assert(viewports_set(own) =~= seq![index as usize]);
        lemma_viewports_set_add(before, own);
        assert(viewports_set(before + own) =~= Seq::new(upto, |i: int| i as usize));
    }
}

/// The lightmap that is bound once `commands` have run, where `bound` was
/// bound before them: the one that was bound last.
pub open spec fn bound_after(commands: Seq<FrameCommand>, bound: Option<Option<usize>>) -> Option<
    Option<usize>,
>
    decreases commands.len(),
{
    if commands.len() == 0 {
        bound
    } else {
        match commands.last() {
            FrameCommand::BindLightmap { lightmap } => Some(lightmap),
            _ => bound_after(commands.drop_last(), bound),
        }
    }
}

/// What is bound after one list of steps and then another is what the
/// second leaves of what the first left.
pub proof fn lemma_bound_after_add(
    first: Seq<FrameCommand>,
    second: Seq<FrameCommand>,
    bound: Option<Option<usize>>,
)
    ensures
        bound_after(first + second, bound) == bound_after(second, bound_after(first, bound)),
    decreases second.len(),
{
    if second.len() == 0 {
        assert(first + second =~= first);
    } else {
        lemma_bound_after_add(first, second.drop_last(), bound);
        assert((first + second).drop_last() =~= first + second.drop_last());
        assert((first + second).last() == second.last());
    }
}

/// One more step binds its lightmap where it binds one, and leaves what is
/// bound where it does not.
pub proof fn lemma_bound_after_push(
    commands: Seq<FrameCommand>,
    command: FrameCommand,
    bound: Option<Option<usize>>,
)
    ensures
        bound_after(commands.push(command), bound) == match command {
            FrameCommand::BindLightmap { lightmap } => Some(lightmap),
            _ => bound_after(commands, bound),
        },
{
    assert(commands.push(command).drop_last() =~= commands);
}

/// A pass leaves bound what [`pass_bound`] tells.
pub proof fn lemma_pass_leaves_bound(
    shaders: Map<Seq<char>, ShaderView>,
    geometries: Seq<Geometry>,
    transparent: bool,
    fullbright: bool,
    bound: Option<Option<usize>>,
    upto: nat,
)
    ensures
        bound_after(
            pass_commands(shaders, geometries, transparent, fullbright, bound, upto),
            bound,
        ) == pass_bound(shaders, geometries, transparent, fullbright, bound, upto),
    decreases upto,
{
    if upto > 0 {
        let before = pass_commands(
            shaders,
            geometries,
            transparent,
            fullbright,
            bound,
            (upto - 1) as nat,
        );
        lemma_pass_leaves_bound(
            shaders,
            geometries,
            transparent,
            fullbright,
            bound,
            (upto - 1) as nat,
        );
        let geometry = geometries[upto - 1];
        let bind = FrameCommand::BindLightmap { lightmap: desired_lightmap(geometry, fullbright) };
        let draw = draw_command(upto - 1, geometry, transparent);
        lemma_bound_after_push(before, draw, bound);
        lemma_bound_after_push(before, bind, bound);
        lemma_bound_after_push(before.push(bind), draw, bound);
    }
}

/// Whenever a pass draws a geometry, the lightmap that is bound is the one
/// that the geometry is to be drawn with.
pub proof fn lemma_pass_draws_with_desired_lightmap(
    shaders: Map<Seq<char>, ShaderView>,
    geometries: Seq<Geometry>,
    transparent: bool,
    fullbright: bool,
    bound: Option<Option<usize>>,
    upto: nat,
    step: int,
)
    requires
        upto <= geometries.len() <= usize::MAX,
        0 <= step < pass_commands(shaders, geometries, transparent, fullbright, bound, upto).len(),
        pass_commands(
            shaders,
            geometries,
            transparent,
            fullbright,
            bound,
            upto,
        )[step] is DrawGeometry,
    ensures
        ({
            let commands = pass_commands(shaders, geometries, transparent, fullbright, bound, upto);
            let geometry = commands[step]->DrawGeometry_geometry;
            &&& geometry < upto
            &&& geometry_is_transparent(shaders, geometries[geometry as int]) == transparent
            &&& bound_after(commands.take(step), bound) == Some(
                desired_lightmap(geometries[geometry as int], fullbright),
            )
        }),
    decreases upto,
{
    let commands = pass_commands(shaders, geometries, transparent, fullbright, bound, upto);
    let before = pass_commands(
        shaders,
        geometries,
        transparent,
        fullbright,
        bound,
        (upto - 1) as nat,
    );
    let bound_before = pass_bound(
        shaders,
        geometries,
        transparent,
        fullbright,
        bound,
        (upto - 1) as nat,
    );
    let geometry = geometries[upto - 1];
    let desired = desired_lightmap(geometry, fullbright);
    let bind = FrameCommand::BindLightmap { lightmap: desired };
    let draw = draw_command(upto - 1, geometry, transparent);
    if step < before.len() {
        assert(commands.take(step) =~= before.take(step));
        assert(commands[step] == before[step]);
        lemma_pass_draws_with_desired_lightmap(
            shaders,
            geometries,
            transparent,
            fullbright,
            bound,
            (upto - 1) as nat,
            step,
        );
    } else {
        lemma_pass_leaves_bound(
            shaders,
            geometries,
            transparent,
            fullbright,
            bound,
            (upto - 1) as nat,
        );
        if bound_before == Some(desired) {
            assert(commands.take(step) =~= before);
        } else {
            assert(step == before.len() + 1);
            assert(commands.take(step) =~= before.push(bind));
            lemma_bound_after_push(before, bind, bound);
        }
    }
}

/// Whenever a pass binds a lightmap, it is not the one that is bound
/// already, and the next step draws a geometry with it.
pub proof fn lemma_pass_binds_on_change(
    shaders: Map<Seq<char>, ShaderView>,
    geometries: Seq<Geometry>,
    transparent: bool,
    fullbright: bool,
    bound: Option<Option<usize>>,
    upto: nat,
    step: int,
)
    requires
        0 <= step < pass_commands(shaders, geometries, transparent, fullbright, bound, upto).len(),
        pass_commands(
            shaders,
            geometries,
            transparent,
            fullbright,
            bound,
            upto,
        )[step] is BindLightmap,
    ensures
        ({
            let commands = pass_commands(shaders, geometries, transparent, fullbright, bound, upto);
            &&& bound_after(commands.take(step), bound) != Some(
                commands[step]->BindLightmap_lightmap,
            )
            &&& step + 1 < commands.len()
            &&& commands[step + 1] is DrawGeometry
        }),
    decreases upto,
{
    let commands = pass_commands(shaders, geometries, transparent, fullbright, bound, upto);
    let before = pass_commands(
        shaders,
        geometries,
        transparent,
        fullbright,
        bound,
        (upto - 1) as nat,
    );
    let bound_before = pass_bound(
        shaders,
        geometries,
        transparent,
        fullbright,
        bound,
        (upto - 1) as nat,
    );
    let geometry = geometries[upto - 1];
    let desired = desired_lightmap(geometry, fullbright);
    if step < before.len() {
        assert(commands.take(step) =~= before.take(step));
        assert(commands[step] == before[step]);
        lemma_pass_binds_on_change(
            shaders,
            geometries,
            transparent,
            fullbright,
            bound,
            (upto - 1) as nat,
            step,
        );
        assert(commands[step + 1] == before[step + 1]);
    } else {
        lemma_pass_leaves_bound(
            shaders,
            geometries,
            transparent,
            fullbright,
            bound,
            (upto - 1) as nat,
        );
        assert(bound_before != Some(desired));
        assert(step == before.len());
        assert(commands.take(step) =~= before);
    }
}

/// Whenever a pass binds a lightmap, it is the one that a geometry of the
/// pass is to be drawn with.
pub proof fn lemma_pass_binds_for_a_geometry(
    shaders: Map<Seq<char>, ShaderView>,
    geometries: Seq<Geometry>,
    transparent: bool,
    fullbright: bool,
    bound: Option<Option<usize>>,
    upto: nat,
    step: int,
) -> (geometry: int)
    requires
        0 <= step < pass_commands(shaders, geometries, transparent, fullbright, bound, upto).len(),
        pass_commands(
            shaders,
            geometries,
            transparent,
            fullbright,
            bound,
            upto,
        )[step] is BindLightmap,
    ensures
        0 <= geometry < upto,
        pass_commands(
            shaders,
            geometries,
            transparent,
            fullbright,
            bound,
            upto,
        )[step]->BindLightmap_lightmap == desired_lightmap(geometries[geometry], fullbright),
    decreases upto,
{
    let commands = pass_commands(shaders, geometries, transparent, fullbright, bound, upto);
    let before = pass_commands(
        shaders,
        geometries,
        transparent,
        fullbright,
        bound,
        (upto - 1) as nat,
    );
    if step < before.len() {
        assert(commands[step] == before[step]);
        lemma_pass_binds_for_a_geometry(
            shaders,
            geometries,
            transparent,
            fullbright,
            bound,
            (upto - 1) as nat,
            step,
        )
    } else {
        upto - 1
    }
}

/// Whatever the steps of a viewport refer to is there, in a valid
/// registry: every geometry that is drawn is one of the BSP and its shader
/// is loaded, and every lightmap that is bound is a sub-bitmap of the
/// lightmap bitmap of the BSP.
pub proof fn lemma_viewport_refers_to_what_is_loaded(
    registry: Registry,
    index: int,
    viewport: PlayerViewport,
    cluster: Option<usize>,
    step: int,
)
    requires
        registry.valid(),
        registry.drawn_bsp().geometries.len() <= usize::MAX,
        0 <= step < viewport_commands(registry, index, viewport, cluster).len(),
    ensures
        match viewport_commands(registry, index, viewport, cluster)[step] {
            FrameCommand::DrawGeometry { geometry, .. } => {
                &&& geometry < registry.drawn_bsp().geometries.len()
                &&& registry.shaders.contains_key(
                    registry.drawn_bsp().geometries[geometry as int].shader@,
                )
            },
            FrameCommand::BindLightmap { lightmap: Some(lightmap) } => {
                &&& registry.drawn_bsp().lightmap_bitmap matches Some(path)
                &&& registry.bitmaps.contains_key(path)
                &&& lightmap < registry.bitmaps[path].bitmaps@.len()
            },
            _ => true,
        },
{
    let commands = viewport_commands(registry, index, viewport, cluster);
    let bsp = registry.drawn_bsp();
    let fullbright = viewport.camera.fullbright;
    let count = bsp.geometries.len();
    let head = seq![
        FrameCommand::SetViewport { viewport: index as usize },
        FrameCommand::SetCullMode { mode: CullMode::Disabled },
    ] + sky_commands(registry, cluster) + seq![FrameCommand::UploadMvp { viewport: index as usize }];
    let bound = pass_bound(registry.shaders, bsp.geometries, false, fullbright, None, count);
    let opaque = pass_commands(registry.shaders, bsp.geometries, false, fullbright, None, count);
    let transparent = pass_commands(
        registry.shaders,
        bsp.geometries,
        true,
        fullbright,
        bound,
        count,
    );
    assert(commands == head + opaque + transparent);
    assert(bsp.valid(registry.bitmaps, registry.shaders, registry.skies)) by {
        match registry.current_bsp {
            Some(path) => {
                assert(registry.bsps.contains_key(path));
            },
            None => {},
        }
    }
    match commands[step] {
        FrameCommand::DrawGeometry { geometry, .. } => {
            lemma_viewport_draws_with_desired_lightmap(registry, index, viewport, cluster, step);
            assert(bsp.geometries[geometry as int].resolves(registry.shaders));
        },
        FrameCommand::BindLightmap { lightmap: Some(lightmap) } => {
            assert(forall|i: int| 0 <= i < head.len() ==> !(#[trigger] head[i] is BindLightmap));
            let geometry = if step < head.len() + opaque.len() {
                assert(commands[step] == opaque[step - head.len()]);
                lemma_pass_binds_for_a_geometry(
                    registry.shaders,
                    bsp.geometries,
                    false,
                    fullbright,
                    None,
                    count,
                    step - head.len(),
                )
            } else {
                assert(commands[step] == transparent[step - head.len() - opaque.len()]);
                lemma_pass_binds_for_a_geometry(
                    registry.shaders,
                    bsp.geometries,
                    true,
                    fullbright,
                    bound,
                    count,
                    step - head.len() - opaque.len(),
                )
            };
            assert(bsp.geometries[geometry].lightmap_index == Some(lightmap));
        },
        _ => {},
    }
}

/// Whenever the steps of a viewport draw a geometry, the lightmap that was
/// bound last is the one that the geometry is to be drawn with: its own,
/// or none where the camera of the viewport sees everything fully lit.
pub proof fn lemma_viewport_draws_with_desired_lightmap(
    registry: Registry,
    index: int,
    viewport: PlayerViewport,
    cluster: Option<usize>,
    step: int,
)
    requires
        registry.drawn_bsp().geometries.len() <= usize::MAX,
        0 <= step < viewport_commands(registry, index, viewport, cluster).len(),
        viewport_commands(registry, index, viewport, cluster)[step] is DrawGeometry,
    ensures
        ({
            let commands = viewport_commands(registry, index, viewport, cluster);
            let geometries = registry.drawn_bsp().geometries;
            let geometry = commands[step]->DrawGeometry_geometry;
            &&& geometry < geometries.len()
            &&& bound_after(commands.take(step), None) == Some(
                desired_lightmap(geometries[geometry as int], viewport.camera.fullbright),
            )
        }),
{
    let commands = viewport_commands(registry, index, viewport, cluster);
    let bsp = registry.drawn_bsp();
    let fullbright = viewport.camera.fullbright;
    let count = bsp.geometries.len();
    let head = seq![
        FrameCommand::SetViewport { viewport: index as usize },
        FrameCommand::SetCullMode { mode: CullMode::Disabled },
    ] + sky_commands(registry, cluster) + seq![FrameCommand::UploadMvp { viewport: index as usize }];
    let bound = pass_bound(registry.shaders, bsp.geometries, false, fullbright, None, count);
    let opaque = pass_commands(registry.shaders, bsp.geometries, false, fullbright, None, count);
    let transparent = pass_commands(
        registry.shaders,
        bsp.geometries,
        true,
        fullbright,
        bound,
        count,
    );
    assert(commands == head + opaque + transparent);
    assert(forall|i: int| 0 <= i < head.len() ==> !(#[trigger] head[i] is DrawGeometry));
    assert(bound_after(head, None) == None::<Option<usize>>) by {
        reveal_with_fuel(bound_after, 5);
    }
    if step < head.len() + opaque.len() {
        let inner = step - head.len();
        assert(commands[step] == opaque[inner]);
        assert(commands.take(step) =~= head + opaque.take(inner));
        lemma_bound_after_add(head, opaque.take(inner), None);
        lemma_pass_draws_with_desired_lightmap(
            registry.shaders,
            bsp.geometries,
            false,
            fullbright,
            None,
            count,
            inner,
        );
    } else {
        let inner = step - head.len() - opaque.len();
        assert(commands[step] == transparent[inner]);
        assert(commands.take(step) =~= head + opaque + transparent.take(inner));
        lemma_bound_after_add(head + opaque, transparent.take(inner), None);
        lemma_bound_after_add(head, opaque, None);
        lemma_pass_leaves_bound(registry.shaders, bsp.geometries, false, fullbright, None, count);
        lemma_pass_draws_with_desired_lightmap(
            registry.shaders,
            bsp.geometries,
            true,
            fullbright,
            bound,
            count,
            inner,
        );
    }
}

} // verus!
