use crate::graph::{add_vertex, add_weighted_edge, graph_edges, graph_nodes, new_graph, total_weight, weights_fit, INDEX_END};
use crate::menutree::shapes;
use crate::{endpoints_below, DeltavMap, MenuTree, NodeView};
use petgraph::graph::Graph;
use petgraph::Undirected;
use vstd::prelude::*;

verus! {

/// The number of locations, and so of vertices, of the stock map.
pub const STOCK_VERTICES: usize = 55;

/// The number of transfers, and so of edges, of the stock map.
pub const STOCK_EDGES: usize = 54;

/// The payloads of the stock map's vertices: vertex `k` carries the name of
/// the location bound to it.
pub open spec fn stock_names() -> Seq<Seq<char>> {
    seq![
        "Kerbin Surface"@,
        "Low Kerbin Orbit (80km)"@,
        "Keostationary Orbit (2.868Mm)"@,
        "Kerbin Capture"@,
        "Mun Intercept"@,
        "Low Mun Orbit (14km)"@,
        "Mun Surface"@,
        "Minmus Intercept"@,
        "Low Minmus Orbit (10km)"@,
        "Minmus Surface"@,
        "Eve Intercept"@,
        "Eve Capture (100km - 85Mm)"@,
        "Low Eve Orbit (100km)"@,
        "Eve Surface"@,
        "Gilly Intercept"@,
        "Low Gilly Orbit (10km)"@,
        "Gilly Surface"@,
        "Duna Intercept"@,
        "Duna Capture (60km - 48Mm)"@,
        "Low Duna Orbit (60km)"@,
        "Duna Surface"@,
        "Ike Intercept"@,
        "Low Ike Orbit (10km)"@,
        "Ike Surface"@,
        "Jool Intercept"@,
        "Jool Capture (210km - 268Mm)"@,
        "Low Jool Orbit (210km)"@,
        "Jool Surface"@,
        "Pol Intercept"@,
        "Low Pol Orbit (10km)"@,
        "Pol Surface"@,
        "Bop Intercept"@,
        "Low Bop Orbit (30km)"@,
        "Bop Surface"@,
        "Tylo Intercept"@,
        "Low Tylo Orbit (10km)"@,
        "Tylo Surface"@,
        "Vall Intercept"@,
        "Low Vall Orbit (15km)"@,
        "Vall Surface"@,
        "Laythe Intercept"@,
        "Low Laythe Orbit (60km)"@,
        "Laythe Surface"@,
        "Dres Intercept"@,
        "Low Dres Orbit (12km)"@,
        "Dres Surface"@,
        "Moho Intercept"@,
        "Low Moho Orbit (20km)"@,
        "Moho Surface"@,
        "Eeloo Intercept"@,
        "Low Eeloo Orbit (10km)"@,
        "Eeloo Surface"@,
        "Elliptical Kerbol Orbit (610km - 13,600Mm)"@,
        "Low Kerbol Orbit (610km)"@,
        "Kerbol Surface"@,
    ]
}

/// The stock map's transfers, in the order they are added, as (vertex,
/// vertex, delta-v).
pub open spec fn stock_edges() -> Seq<(int, int, int)> {
    seq![
        (0, 1, 3400),  // Kerbin Surface - Low Kerbin Orbit (80km)
        (1, 2, 1115),  // Low Kerbin Orbit (80km) - Keostationary Orbit (2.868Mm)
        (1, 3, 950),  // Low Kerbin Orbit (80km) - Kerbin Capture
        (1, 4, 860),  // Low Kerbin Orbit (80km) - Mun Intercept
        (4, 5, 280),  // Mun Intercept - Low Mun Orbit (14km)
        (5, 6, 580),  // Low Mun Orbit (14km) - Mun Surface
        (1, 7, 930),  // Low Kerbin Orbit (80km) - Minmus Intercept
        (7, 8, 160),  // Minmus Intercept - Low Minmus Orbit (10km)
        (8, 9, 180),  // Low Minmus Orbit (10km) - Minmus Surface
        (3, 10, 90),  // Kerbin Capture - Eve Intercept
        (10, 11, 80),  // Eve Intercept - Eve Capture (100km - 85Mm)
        (11, 12, 1350),  // Eve Capture (100km - 85Mm) - Low Eve Orbit (100km)
        (12, 13, 8000),  // Low Eve Orbit (100km) - Eve Surface
        (11, 14, 60),  // Eve Capture (100km - 85Mm) - Gilly Intercept
        (14, 15, 410),  // Gilly Intercept - Low Gilly Orbit (10km)
        (15, 16, 30),  // Low Gilly Orbit (10km) - Gilly Surface
        (3, 17, 130),  // Kerbin Capture - Duna Intercept
        (17, 18, 250),  // Duna Intercept - Duna Capture (60km - 48Mm)
        (18, 19, 360),  // Duna Capture (60km - 48Mm) - Low Duna Orbit (60km)
        (19, 20, 1450),  // Low Duna Orbit (60km) - Duna Surface
        (18, 21, 30),  // Duna Capture (60km - 48Mm) - Ike Intercept
        (21, 22, 180),  // Ike Intercept - Low Ike Orbit (10km)
        (22, 23, 390),  // Low Ike Orbit (10km) - Ike Surface
        (3, 24, 980),  // Kerbin Capture - Jool Intercept
        (24, 25, 160),  // Jool Intercept - Jool Capture (210km - 268Mm)
        (25, 26, 2810),  // Jool Capture (210km - 268Mm) - Low Jool Orbit (210km)
        (26, 27, 14000),  // Low Jool Orbit (210km) - Jool Surface
        (25, 28, 160),  // Jool Capture (210km - 268Mm) - Pol Intercept
        (28, 29, 820),  // Pol Intercept - Low Pol Orbit (10km)
        (29, 30, 130),  // Low Pol Orbit (10km) - Pol Surface
        (25, 31, 220),  // Jool Capture (210km - 268Mm) - Bop Intercept
        (31, 32, 900),  // Bop Intercept - Low Bop Orbit (30km)
        (32, 33, 230),  // Low Bop Orbit (30km) - Bop Surface
        (25, 34, 400),  // Jool Capture (210km - 268Mm) - Tylo Intercept
        (34, 35, 1100),  // Tylo Intercept - Low Tylo Orbit (10km)
        (35, 36, 2270),  // Low Tylo Orbit (10km) - Tylo Surface
        (25, 37, 620),  // Jool Capture (210km - 268Mm) - Vall Intercept
        (37, 38, 910),  // Vall Intercept - Low Vall Orbit (15km)
        (38, 39, 860),  // Low Vall Orbit (15km) - Vall Surface
        (25, 40, 930),  // Jool Capture (210km - 268Mm) - Laythe Intercept
        (40, 41, 1070),  // Laythe Intercept - Low Laythe Orbit (60km)
        (41, 42, 2900),  // Low Laythe Orbit (60km) - Laythe Surface
        (3, 43, 610),  // Kerbin Capture - Dres Intercept
        (43, 44, 1290),  // Dres Intercept - Low Dres Orbit (12km)
        (44, 45, 430),  // Low Dres Orbit (12km) - Dres Surface
        (3, 46, 760),  // Kerbin Capture - Moho Intercept
        (46, 47, 2410),  // Moho Intercept - Low Moho Orbit (20km)
        (47, 48, 870),  // Low Moho Orbit (20km) - Moho Surface
        (3, 49, 1140),  // Kerbin Capture - Eeloo Intercept
        (49, 50, 1370),  // Eeloo Intercept - Low Eeloo Orbit (10km)
        (50, 51, 620),  // Low Eeloo Orbit (10km) - Eeloo Surface
        (3, 52, 6000),  // Kerbin Capture - Elliptical Kerbol Orbit (610km - 13,600Mm)
        (52, 53, 13700),  // Elliptical Kerbol Orbit (610km - 13,600Mm) - Low Kerbol Orbit (610km)
        (53, 54, 67000),  // Low Kerbol Orbit (610km) - Kerbol Surface
    ]
}

/// The stock map's menu tree: the Kerbol system, its bodies as categories
/// in menu order, and each location with the index of its vertex.
pub open spec fn stock_tree() -> NodeView {
    NodeView::Category(
        "Kerbol System"@,
        seq![
            NodeView::Category(
                "Kerbin"@,
                seq![
                    NodeView::Location("Kerbin Surface"@, 0),
                    NodeView::Location("Low Kerbin Orbit (80km)"@, 1),
                    NodeView::Location("Keostationary Orbit (2.868Mm)"@, 2),
                    NodeView::Location("Kerbin Capture"@, 3),
                    NodeView::Category(
                        "Mun"@,
                        seq![
                            NodeView::Location("Mun Intercept"@, 4),
                            NodeView::Location("Low Mun Orbit (14km)"@, 5),
                            NodeView::Location("Mun Surface"@, 6),
                        ],
                    ),
                    NodeView::Category(
                        "Minmus"@,
                        seq![
                            NodeView::Location("Minmus Intercept"@, 7),
                            NodeView::Location("Low Minmus Orbit (10km)"@, 8),
                            NodeView::Location("Minmus Surface"@, 9),
                        ],
                    ),
                ],
            ),
            NodeView::Category(
                "Eve"@,
                seq![
                    NodeView::Location("Eve Intercept"@, 10),
                    NodeView::Location("Eve Capture (100km - 85Mm)"@, 11),
                    NodeView::Location("Low Eve Orbit (100km)"@, 12),
                    NodeView::Location("Eve Surface"@, 13),
                    NodeView::Category(
                        "Gilly"@,
                        seq![
                            NodeView::Location("Gilly Intercept"@, 14),
                            NodeView::Location("Low Gilly Orbit (10km)"@, 15),
                            NodeView::Location("Gilly Surface"@, 16),
                        ],
                    ),
                ],
            ),
            NodeView::Category(
                "Duna"@,
                seq![
                    NodeView::Location("Duna Intercept"@, 17),
                    NodeView::Location("Duna Capture (60km - 48Mm)"@, 18),
                    NodeView::Location("Low Duna Orbit (60km)"@, 19),
                    NodeView::Location("Duna Surface"@, 20),
                    NodeView::Category(
                        "Ike"@,
                        seq![
                            NodeView::Location("Ike Intercept"@, 21),
                            NodeView::Location("Low Ike Orbit (10km)"@, 22),
                            NodeView::Location("Ike Surface"@, 23),
                        ],
                    ),
                ],
            ),
            NodeView::Category(
                "Jool"@,
                seq![
                    NodeView::Location("Jool Intercept"@, 24),
                    NodeView::Location("Jool Capture (210km - 268Mm)"@, 25),
                    NodeView::Location("Low Jool Orbit (210km)"@, 26),
                    NodeView::Location("Jool Surface"@, 27),
                    NodeView::Category(
                        "Pol"@,
                        seq![
                            NodeView::Location("Pol Intercept"@, 28),
                            NodeView::Location("Low Pol Orbit (10km)"@, 29),
                            NodeView::Location("Pol Surface"@, 30),
                        ],
                    ),
                    NodeView::Category(
                        "Bop"@,
                        seq![
                            NodeView::Location("Bop Intercept"@, 31),
                            NodeView::Location("Low Bop Orbit (30km)"@, 32),
                            NodeView::Location("Bop Surface"@, 33),
                        ],
                    ),
                    NodeView::Category(
                        "Tylo"@,
                        seq![
                            NodeView::Location("Tylo Intercept"@, 34),
                            NodeView::Location("Low Tylo Orbit (10km)"@, 35),
                            NodeView::Location("Tylo Surface"@, 36),
                        ],
                    ),
                    NodeView::Category(
                        "Vall"@,
                        seq![
                            NodeView::Location("Vall Intercept"@, 37),
                            NodeView::Location("Low Vall Orbit (15km)"@, 38),
                            NodeView::Location("Vall Surface"@, 39),
                        ],
                    ),
                    NodeView::Category(
                        "Laythe"@,
                        seq![
                            NodeView::Location("Laythe Intercept"@, 40),
                            NodeView::Location("Low Laythe Orbit (60km)"@, 41),
                            NodeView::Location("Laythe Surface"@, 42),
                        ],
                    ),
                ],
            ),
            NodeView::Category(
                "Dres"@,
                seq![
                    NodeView::Location("Dres Intercept"@, 43),
                    NodeView::Location("Low Dres Orbit (12km)"@, 44),
                    NodeView::Location("Dres Surface"@, 45),
                ],
            ),
            NodeView::Category(
                "Moho"@,
                seq![
                    NodeView::Location("Moho Intercept"@, 46),
                    NodeView::Location("Low Moho Orbit (20km)"@, 47),
                    NodeView::Location("Moho Surface"@, 48),
                ],
            ),
            NodeView::Category(
                "Eeloo"@,
                seq![
                    NodeView::Location("Eeloo Intercept"@, 49),
                    NodeView::Location("Low Eeloo Orbit (10km)"@, 50),
                    NodeView::Location("Eeloo Surface"@, 51),
                ],
            ),
            NodeView::Location("Elliptical Kerbol Orbit (610km - 13,600Mm)"@, 52),
            NodeView::Location("Low Kerbol Orbit (610km)"@, 53),
            NodeView::Location("Kerbol Surface"@, 54),
        ],
    )
}

/// A location named `name` bound to vertex `index` of the stock map.
fn location(name: &str, index: usize) -> (r: MenuTree)
    requires
        index < STOCK_VERTICES,
    ensures
        r.handles_below(STOCK_VERTICES as int),
        r.shape() == NodeView::Location(name@, index as int),
{
    MenuTree::EndNode { name: name.to_owned(), index }
}

/// Appends `child` to the children of a category of the stock map.
fn add_child(children: &mut Vec<MenuTree>, child: MenuTree)
    requires
        forall|i: int|
            0 <= i < old(children)@.len() ==> (#[trigger] old(children)@[i]).handles_below(
                STOCK_VERTICES as int,
            ),
        child.handles_below(STOCK_VERTICES as int),
    ensures
        forall|i: int|
            0 <= i < final(children)@.len() ==> (#[trigger] final(children)@[i]).handles_below(
                STOCK_VERTICES as int,
            ),
        final(children)@ == old(children)@.push(child),
        shapes(final(children)@) == shapes(old(children)@).push(child.shape()),
{
    children.push(child);
    assert(children@.drop_last() =~= old(children)@);
}

/// A category of the stock map named `name` holding `children`.
fn category(name: &str, children: Vec<MenuTree>) -> (r: MenuTree)
    requires
        forall|i: int|
            0 <= i < children@.len() ==> (#[trigger] children@[i]).handles_below(
                STOCK_VERTICES as int,
            ),
    ensures
        r.handles_below(STOCK_VERTICES as int),
        r.shape() == NodeView::Category(name@, shapes(children@)),
{
    MenuTree::MiddleNode { name: name.to_owned(), children }
}

/// Adds a transfer of delta-v `weight` between the vertices `a` and `b`,
/// keeping the weights within what the search can add up.
fn connect(graph: &mut Graph<String, i32, Undirected, u32>, a: usize, b: usize, weight: i32)
    requires
        a < graph_nodes(*old(graph)).len(),
        b < graph_nodes(*old(graph)).len(),
        graph_edges(*old(graph)).len() + 1 < INDEX_END,
        endpoints_below(graph_edges(*old(graph)), graph_nodes(*old(graph)).len() as int),
        weights_fit(graph_edges(*old(graph))),
        0 <= weight,
        2 * (total_weight(graph_edges(*old(graph))) + weight) <= i32::MAX,
    ensures
        graph_nodes(*final(graph)) == graph_nodes(*old(graph)),
        graph_edges(*final(graph)) == graph_edges(*old(graph)).push(
            (a as int, b as int, weight as int),
        ),
        endpoints_below(graph_edges(*final(graph)), graph_nodes(*final(graph)).len() as int),
        weights_fit(graph_edges(*final(graph))),
        total_weight(graph_edges(*final(graph))) == total_weight(graph_edges(*old(graph))) + weight,
{
    add_weighted_edge(graph, a, b, weight);
    assert(graph_edges(*graph).drop_last() =~= graph_edges(*old(graph)));
}

/// The stock map's graph: a vertex for each location, a weighted edge for
/// each transfer.
fn stock_graph() -> (g: Graph<String, i32, Undirected, u32>)
    ensures
        graph_nodes(g) == stock_names(),
        graph_edges(g) == stock_edges(),
        graph_nodes(g).len() == STOCK_VERTICES,
        endpoints_below(graph_edges(g), STOCK_VERTICES as int),
        weights_fit(graph_edges(g)),
{
    let mut graph = new_graph();
    let kerbin_surface = add_vertex(&mut graph, "Kerbin Surface".to_owned());
    let low_kerbin_orbit = add_vertex(&mut graph, "Low Kerbin Orbit (80km)".to_owned());
    let keostationary_orbit = add_vertex(&mut graph, "Keostationary Orbit (2.868Mm)".to_owned());
    let kerbin_capture = add_vertex(&mut graph, "Kerbin Capture".to_owned());
    let mun_intercept = add_vertex(&mut graph, "Mun Intercept".to_owned());
    let low_mun_orbit = add_vertex(&mut graph, "Low Mun Orbit (14km)".to_owned());
    let mun_surface = add_vertex(&mut graph, "Mun Surface".to_owned());
    let minmus_intercept = add_vertex(&mut graph, "Minmus Intercept".to_owned());
    let low_minmus_orbit = add_vertex(&mut graph, "Low Minmus Orbit (10km)".to_owned());
    let minmus_surface = add_vertex(&mut graph, "Minmus Surface".to_owned());
    let eve_intercept = add_vertex(&mut graph, "Eve Intercept".to_owned());
    let eve_capture = add_vertex(&mut graph, "Eve Capture (100km - 85Mm)".to_owned());
    let low_eve_orbit = add_vertex(&mut graph, "Low Eve Orbit (100km)".to_owned());
    let eve_surface = add_vertex(&mut graph, "Eve Surface".to_owned());
    let gilly_intercept = add_vertex(&mut graph, "Gilly Intercept".to_owned());
    let low_gilly_orbit = add_vertex(&mut graph, "Low Gilly Orbit (10km)".to_owned());
    let gilly_surface = add_vertex(&mut graph, "Gilly Surface".to_owned());
    let duna_intercept = add_vertex(&mut graph, "Duna Intercept".to_owned());
    let duna_capture = add_vertex(&mut graph, "Duna Capture (60km - 48Mm)".to_owned());
    let low_duna_orbit = add_vertex(&mut graph, "Low Duna Orbit (60km)".to_owned());
    let duna_surface = add_vertex(&mut graph, "Duna Surface".to_owned());
    let ike_intercept = add_vertex(&mut graph, "Ike Intercept".to_owned());
    let low_ike_orbit = add_vertex(&mut graph, "Low Ike Orbit (10km)".to_owned());
    let ike_surface = add_vertex(&mut graph, "Ike Surface".to_owned());
    let jool_intercept = add_vertex(&mut graph, "Jool Intercept".to_owned());
    let jool_capture = add_vertex(&mut graph, "Jool Capture (210km - 268Mm)".to_owned());
    let low_jool_orbit = add_vertex(&mut graph, "Low Jool Orbit (210km)".to_owned());
    let jool_surface = add_vertex(&mut graph, "Jool Surface".to_owned());
    let pol_intercept = add_vertex(&mut graph, "Pol Intercept".to_owned());
    let low_pol_orbit = add_vertex(&mut graph, "Low Pol Orbit (10km)".to_owned());
    let pol_surface = add_vertex(&mut graph, "Pol Surface".to_owned());
    let bop_intercept = add_vertex(&mut graph, "Bop Intercept".to_owned());
    let low_bop_orbit = add_vertex(&mut graph, "Low Bop Orbit (30km)".to_owned());
    let bop_surface = add_vertex(&mut graph, "Bop Surface".to_owned());
    let tylo_intercept = add_vertex(&mut graph, "Tylo Intercept".to_owned());
    let low_tylo_orbit = add_vertex(&mut graph, "Low Tylo Orbit (10km)".to_owned());
    let tylo_surface = add_vertex(&mut graph, "Tylo Surface".to_owned());
    let vall_intercept = add_vertex(&mut graph, "Vall Intercept".to_owned());
    let low_vall_orbit = add_vertex(&mut graph, "Low Vall Orbit (15km)".to_owned());
    let vall_surface = add_vertex(&mut graph, "Vall Surface".to_owned());
    let laythe_intercept = add_vertex(&mut graph, "Laythe Intercept".to_owned());
    let low_laythe_orbit = add_vertex(&mut graph, "Low Laythe Orbit (60km)".to_owned());
    let laythe_surface = add_vertex(&mut graph, "Laythe Surface".to_owned());
    let dres_intercept = add_vertex(&mut graph, "Dres Intercept".to_owned());
    let low_dres_orbit = add_vertex(&mut graph, "Low Dres Orbit (12km)".to_owned());
    let dres_surface = add_vertex(&mut graph, "Dres Surface".to_owned());
    let moho_intercept = add_vertex(&mut graph, "Moho Intercept".to_owned());
    let low_moho_orbit = add_vertex(&mut graph, "Low Moho Orbit (20km)".to_owned());
    let moho_surface = add_vertex(&mut graph, "Moho Surface".to_owned());
    let eeloo_intercept = add_vertex(&mut graph, "Eeloo Intercept".to_owned());
    let low_eeloo_orbit = add_vertex(&mut graph, "Low Eeloo Orbit (10km)".to_owned());
    let eeloo_surface = add_vertex(&mut graph, "Eeloo Surface".to_owned());
    let elliptical_kerbol_orbit = add_vertex(&mut graph, "Elliptical Kerbol Orbit (610km - 13,600Mm)".to_owned());
    let low_kerbol_orbit = add_vertex(&mut graph, "Low Kerbol Orbit (610km)".to_owned());
    let kerbol_surface = add_vertex(&mut graph, "Kerbol Surface".to_owned());

    connect(&mut graph, kerbin_surface, low_kerbin_orbit, 3400);
    connect(&mut graph, low_kerbin_orbit, keostationary_orbit, 1115);
    connect(&mut graph, low_kerbin_orbit, kerbin_capture, 950);
    connect(&mut graph, low_kerbin_orbit, mun_intercept, 860);
    connect(&mut graph, mun_intercept, low_mun_orbit, 280);
    connect(&mut graph, low_mun_orbit, mun_surface, 580);
    connect(&mut graph, low_kerbin_orbit, minmus_intercept, 930);
    connect(&mut graph, minmus_intercept, low_minmus_orbit, 160);
    connect(&mut graph, low_minmus_orbit, minmus_surface, 180);
    connect(&mut graph, kerbin_capture, eve_intercept, 90);
    connect(&mut graph, eve_intercept, eve_capture, 80);
    connect(&mut graph, eve_capture, low_eve_orbit, 1350);
    connect(&mut graph, low_eve_orbit, eve_surface, 8000);
    connect(&mut graph, eve_capture, gilly_intercept, 60);
    connect(&mut graph, gilly_intercept, low_gilly_orbit, 410);
    connect(&mut graph, low_gilly_orbit, gilly_surface, 30);
    connect(&mut graph, kerbin_capture, duna_intercept, 130);
    connect(&mut graph, duna_intercept, duna_capture, 250);
    connect(&mut graph, duna_capture, low_duna_orbit, 360);
    connect(&mut graph, low_duna_orbit, duna_surface, 1450);
    connect(&mut graph, duna_capture, ike_intercept, 30);
    connect(&mut graph, ike_intercept, low_ike_orbit, 180);
    connect(&mut graph, low_ike_orbit, ike_surface, 390);
    connect(&mut graph, kerbin_capture, jool_intercept, 980);
    connect(&mut graph, jool_intercept, jool_capture, 160);
    connect(&mut graph, jool_capture, low_jool_orbit, 2810);
    connect(&mut graph, low_jool_orbit, jool_surface, 14000);
    connect(&mut graph, jool_capture, pol_intercept, 160);
    connect(&mut graph, pol_intercept, low_pol_orbit, 820);
    connect(&mut graph, low_pol_orbit, pol_surface, 130);
    connect(&mut graph, jool_capture, bop_intercept, 220);
    connect(&mut graph, bop_intercept, low_bop_orbit, 900);
    connect(&mut graph, low_bop_orbit, bop_surface, 230);
    connect(&mut graph, jool_capture, tylo_intercept, 400);
    connect(&mut graph, tylo_intercept, low_tylo_orbit, 1100);
    connect(&mut graph, low_tylo_orbit, tylo_surface, 2270);
    connect(&mut graph, jool_capture, vall_intercept, 620);
    connect(&mut graph, vall_intercept, low_vall_orbit, 910);
    connect(&mut graph, low_vall_orbit, vall_surface, 860);
    connect(&mut graph, jool_capture, laythe_intercept, 930);
    connect(&mut graph, laythe_intercept, low_laythe_orbit, 1070);
    connect(&mut graph, low_laythe_orbit, laythe_surface, 2900);
    connect(&mut graph, kerbin_capture, dres_intercept, 610);
    connect(&mut graph, dres_intercept, low_dres_orbit, 1290);
    connect(&mut graph, low_dres_orbit, dres_surface, 430);
    connect(&mut graph, kerbin_capture, moho_intercept, 760);
    connect(&mut graph, moho_intercept, low_moho_orbit, 2410);
    connect(&mut graph, low_moho_orbit, moho_surface, 870);
    connect(&mut graph, kerbin_capture, eeloo_intercept, 1140);
    connect(&mut graph, eeloo_intercept, low_eeloo_orbit, 1370);
    connect(&mut graph, low_eeloo_orbit, eeloo_surface, 620);
    connect(&mut graph, kerbin_capture, elliptical_kerbol_orbit, 6000);
    connect(&mut graph, elliptical_kerbol_orbit, low_kerbol_orbit, 13700);
    connect(&mut graph, low_kerbol_orbit, kerbol_surface, 67000);
    graph
}

/// The stock map's menu tree.
fn stock_menu_tree() -> (t: MenuTree)
    ensures
        t.shape() == stock_tree(),
        t.handles_below(STOCK_VERTICES as int),
{
    let mut mun = Vec::new();
    add_child(&mut mun, location("Mun Intercept", 4));
    add_child(&mut mun, location("Low Mun Orbit (14km)", 5));
    add_child(&mut mun, location("Mun Surface", 6));
    assert(shapes(mun@) =~= seq![
        NodeView::Location("Mun Intercept"@, 4),
        NodeView::Location("Low Mun Orbit (14km)"@, 5),
        NodeView::Location("Mun Surface"@, 6),
    ]);
    let mun_category = category("Mun", mun);
    let mut minmus = Vec::new();
    add_child(&mut minmus, location("Minmus Intercept", 7));
    add_child(&mut minmus, location("Low Minmus Orbit (10km)", 8));
    add_child(&mut minmus, location("Minmus Surface", 9));
    assert(shapes(minmus@) =~= seq![
        NodeView::Location("Minmus Intercept"@, 7),
        NodeView::Location("Low Minmus Orbit (10km)"@, 8),
        NodeView::Location("Minmus Surface"@, 9),
    ]);
    let minmus_category = category("Minmus", minmus);
    let mut kerbin = Vec::new();
    add_child(&mut kerbin, location("Kerbin Surface", 0));
    add_child(&mut kerbin, location("Low Kerbin Orbit (80km)", 1));
    add_child(&mut kerbin, location("Keostationary Orbit (2.868Mm)", 2));
    add_child(&mut kerbin, location("Kerbin Capture", 3));
    add_child(&mut kerbin, mun_category);
    add_child(&mut kerbin, minmus_category);
    assert(shapes(kerbin@) =~= seq![
        NodeView::Location("Kerbin Surface"@, 0),
        NodeView::Location("Low Kerbin Orbit (80km)"@, 1),
        NodeView::Location("Keostationary Orbit (2.868Mm)"@, 2),
        NodeView::Location("Kerbin Capture"@, 3),
        mun_category.shape(),
        minmus_category.shape(),
    ]);
    let kerbin_category = category("Kerbin", kerbin);
    let mut gilly = Vec::new();
    add_child(&mut gilly, location("Gilly Intercept", 14));
    add_child(&mut gilly, location("Low Gilly Orbit (10km)", 15));
    add_child(&mut gilly, location("Gilly Surface", 16));
    assert(shapes(gilly@) =~= seq![
        NodeView::Location("Gilly Intercept"@, 14),
        NodeView::Location("Low Gilly Orbit (10km)"@, 15),
        NodeView::Location("Gilly Surface"@, 16),
    ]);
    let gilly_category = category("Gilly", gilly);
    let mut eve = Vec::new();
    add_child(&mut eve, location("Eve Intercept", 10));
    add_child(&mut eve, location("Eve Capture (100km - 85Mm)", 11));
    add_child(&mut eve, location("Low Eve Orbit (100km)", 12));
    add_child(&mut eve, location("Eve Surface", 13));
    add_child(&mut eve, gilly_category);
    assert(shapes(eve@) =~= seq![
        NodeView::Location("Eve Intercept"@, 10),
        NodeView::Location("Eve Capture (100km - 85Mm)"@, 11),
        NodeView::Location("Low Eve Orbit (100km)"@, 12),
        NodeView::Location("Eve Surface"@, 13),
        gilly_category.shape(),
    ]);
    let eve_category = category("Eve", eve);
    let mut ike = Vec::new();
    add_child(&mut ike, location("Ike Intercept", 21));
    add_child(&mut ike, location("Low Ike Orbit (10km)", 22));
    add_child(&mut ike, location("Ike Surface", 23));
    assert(shapes(ike@) =~= seq![
        NodeView::Location("Ike Intercept"@, 21),
        NodeView::Location("Low Ike Orbit (10km)"@, 22),
        NodeView::Location("Ike Surface"@, 23),
    ]);
    let ike_category = category("Ike", ike);
    let mut duna = Vec::new();
    add_child(&mut duna, location("Duna Intercept", 17));
    add_child(&mut duna, location("Duna Capture (60km - 48Mm)", 18));
    add_child(&mut duna, location("Low Duna Orbit (60km)", 19));
    add_child(&mut duna, location("Duna Surface", 20));
    add_child(&mut duna, ike_category);
    assert(shapes(duna@) =~= seq![
        NodeView::Location("Duna Intercept"@, 17),
        NodeView::Location("Duna Capture (60km - 48Mm)"@, 18),
        NodeView::Location("Low Duna Orbit (60km)"@, 19),
        NodeView::Location("Duna Surface"@, 20),
        ike_category.shape(),
    ]);
    let duna_category = category("Duna", duna);
    let mut pol = Vec::new();
    add_child(&mut pol, location("Pol Intercept", 28));
    add_child(&mut pol, location("Low Pol Orbit (10km)", 29));
    add_child(&mut pol, location("Pol Surface", 30));
    assert(shapes(pol@) =~= seq![
        NodeView::Location("Pol Intercept"@, 28),
        NodeView::Location("Low Pol Orbit (10km)"@, 29),
        NodeView::Location("Pol Surface"@, 30),
    ]);
    let pol_category = category("Pol", pol);
    let mut bop = Vec::new();
    add_child(&mut bop, location("Bop Intercept", 31));
    add_child(&mut bop, location("Low Bop Orbit (30km)", 32));
    add_child(&mut bop, location("Bop Surface", 33));
    assert(shapes(bop@) =~= seq![
        NodeView::Location("Bop Intercept"@, 31),
        NodeView::Location("Low Bop Orbit (30km)"@, 32),
        NodeView::Location("Bop Surface"@, 33),
    ]);
    let bop_category = category("Bop", bop);
    let mut tylo = Vec::new();
    add_child(&mut tylo, location("Tylo Intercept", 34));
    add_child(&mut tylo, location("Low Tylo Orbit (10km)", 35));
    add_child(&mut tylo, location("Tylo Surface", 36));
    assert(shapes(tylo@) =~= seq![
        NodeView::Location("Tylo Intercept"@, 34),
        NodeView::Location("Low Tylo Orbit (10km)"@, 35),
        NodeView::Location("Tylo Surface"@, 36),
    ]);
    let tylo_category = category("Tylo", tylo);
    let mut vall = Vec::new();
    add_child(&mut vall, location("Vall Intercept", 37));
    add_child(&mut vall, location("Low Vall Orbit (15km)", 38));
    add_child(&mut vall, location("Vall Surface", 39));
    assert(shapes(vall@) =~= seq![
        NodeView::Location("Vall Intercept"@, 37),
        NodeView::Location("Low Vall Orbit (15km)"@, 38),
        NodeView::Location("Vall Surface"@, 39),
    ]);
    let vall_category = category("Vall", vall);
    let mut laythe = Vec::new();
    add_child(&mut laythe, location("Laythe Intercept", 40));
    add_child(&mut laythe, location("Low Laythe Orbit (60km)", 41));
    add_child(&mut laythe, location("Laythe Surface", 42));
    assert(shapes(laythe@) =~= seq![
        NodeView::Location("Laythe Intercept"@, 40),
        NodeView::Location("Low Laythe Orbit (60km)"@, 41),
        NodeView::Location("Laythe Surface"@, 42),
    ]);
    let laythe_category = category("Laythe", laythe);
    let mut jool = Vec::new();
    add_child(&mut jool, location("Jool Intercept", 24));
    add_child(&mut jool, location("Jool Capture (210km - 268Mm)", 25));
    add_child(&mut jool, location("Low Jool Orbit (210km)", 26));
    add_child(&mut jool, location("Jool Surface", 27));
    add_child(&mut jool, pol_category);
    add_child(&mut jool, bop_category);
    add_child(&mut jool, tylo_category);
    add_child(&mut jool, vall_category);
    add_child(&mut jool, laythe_category);
    assert(shapes(jool@) =~= seq![
        NodeView::Location("Jool Intercept"@, 24),
        NodeView::Location("Jool Capture (210km - 268Mm)"@, 25),
        NodeView::Location("Low Jool Orbit (210km)"@, 26),
        NodeView::Location("Jool Surface"@, 27),
        pol_category.shape(),
        bop_category.shape(),
        tylo_category.shape(),
        vall_category.shape(),
        laythe_category.shape(),
    ]);
    let jool_category = category("Jool", jool);
    let mut dres = Vec::new();
    add_child(&mut dres, location("Dres Intercept", 43));
    add_child(&mut dres, location("Low Dres Orbit (12km)", 44));
    add_child(&mut dres, location("Dres Surface", 45));
    assert(shapes(dres@) =~= seq![
        NodeView::Location("Dres Intercept"@, 43),
        NodeView::Location("Low Dres Orbit (12km)"@, 44),
        NodeView::Location("Dres Surface"@, 45),
    ]);
    let dres_category = category("Dres", dres);
    let mut moho = Vec::new();
    add_child(&mut moho, location("Moho Intercept", 46));
    add_child(&mut moho, location("Low Moho Orbit (20km)", 47));
    add_child(&mut moho, location("Moho Surface", 48));
    assert(shapes(moho@) =~= seq![
        NodeView::Location("Moho Intercept"@, 46),
        NodeView::Location("Low Moho Orbit (20km)"@, 47),
        NodeView::Location("Moho Surface"@, 48),
    ]);
    let moho_category = category("Moho", moho);
    let mut eeloo = Vec::new();
    add_child(&mut eeloo, location("Eeloo Intercept", 49));
    add_child(&mut eeloo, location("Low Eeloo Orbit (10km)", 50));
    add_child(&mut eeloo, location("Eeloo Surface", 51));
    assert(shapes(eeloo@) =~= seq![
        NodeView::Location("Eeloo Intercept"@, 49),
        NodeView::Location("Low Eeloo Orbit (10km)"@, 50),
        NodeView::Location("Eeloo Surface"@, 51),
    ]);
    let eeloo_category = category("Eeloo", eeloo);
    let mut kerbol_system = Vec::new();
    add_child(&mut kerbol_system, kerbin_category);
    add_child(&mut kerbol_system, eve_category);
    add_child(&mut kerbol_system, duna_category);
    add_child(&mut kerbol_system, jool_category);
    add_child(&mut kerbol_system, dres_category);
    add_child(&mut kerbol_system, moho_category);
    add_child(&mut kerbol_system, eeloo_category);
    add_child(&mut kerbol_system, location("Elliptical Kerbol Orbit (610km - 13,600Mm)", 52));
    add_child(&mut kerbol_system, location("Low Kerbol Orbit (610km)", 53));
    add_child(&mut kerbol_system, location("Kerbol Surface", 54));
    assert(shapes(kerbol_system@) =~= seq![
        kerbin_category.shape(),
        eve_category.shape(),
        duna_category.shape(),
        jool_category.shape(),
        dres_category.shape(),
        moho_category.shape(),
        eeloo_category.shape(),
        NodeView::Location("Elliptical Kerbol Orbit (610km - 13,600Mm)"@, 52),
        NodeView::Location("Low Kerbol Orbit (610km)"@, 53),
        NodeView::Location("Kerbol Surface"@, 54),
    ]);
    let tree = category("Kerbol System", kerbol_system);
    tree
}

impl DeltavMap {
    /// Returns the delta-v map of the stock Kerbol system: its bodies as
    /// categories, each with an intercept, a low orbit and a surface, and the
    /// delta-v of each transfer between them.
    pub fn new_stock() -> (r: DeltavMap)
        ensures
            r.tree().shape() == stock_tree(),
            r.nodes() == stock_names(),
            r.edges() == stock_edges(),
    {
        DeltavMap { menu_tree: stock_menu_tree(), graph: stock_graph() }
    }
}

} // verus!
