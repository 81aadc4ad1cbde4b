# scene_manager

A stack of scenes for the Godot engine. The topmost scene runs; the scenes below it are paused, and
get their own process mode back when they come up again. Scenes can be pushed, popped, swapped,
inserted and removed, and a transition scene can cover the change from one scene to the next while
that one is loaded in the background.

`src/` is the verified library. It knows nodes by their instance ids: what it has to know of the
scene tree comes in as plain values, and what is to happen in the tree goes out as a list of
`TreeAction`s, to be performed in order.

| module | what it holds |
| --- | --- |
| `tree` | nodes, process modes and tree actions |
| `manager` | the scene stack, with its entries in `internal` and its laws in `laws` |
| `manager::transition` | scene transitions, from one wait to the next |
| `manager::gd_api` | the node through which scripts use the manager |
| `resource` | what to ask of the resource loader, and what to make of its answers |
| `transition` | transitions that an animation player runs |
| `idle`, `promise` | tasks that run once and latches, both of which can be waited for |
| `settings`, `plugin` | the project settings and the editor plugin that sets them up |
| `ident`, `text` | identities and text |

`app/` carries the library's decisions out on the engine's objects: the engine classes, the
futures, and the locks around what several threads share.
