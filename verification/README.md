# plygui_qt

The Qt back end of a retained-mode GUI toolkit, split in two:

- `src/` is the verified core, written in Verus: how controls measure
  themselves, where linear layouts, split panes and frames place their
  children, how child lists, tables, trees and menus are kept, and the
  decisions taken when widgets report events (closing, resizing, the command
  pump of the application). Every public function states its result in its
  contract, and the laws that tie functions together (a child appended and
  removed comes back, a node inserted along a path is found there, a menu
  level keeps every item and puts special roles last, and so on) are proof
  functions next to the code they speak of.
- `app/` is the ordinary Rust around it: the Qt widgets, signals and slots,
  the toolkit's traits, and the floating-point scaling of split panes. It
  hands plain values to the core and applies what comes back.

`tests/` exercises the core on concrete values.
