# vjmapper

Verified core of the VjMapper tools.

- `src/` — the library, verified with Verus:
  - `text`: decimal rendering, string equality, substring search, lower-casing.
  - `base64`: the Base64 encoder used for PNG payloads, with its length,
    alphabet/padding and concatenation laws, and a decoder specification under
    which encoding is invertible (hence injective).
  - `api`: Streamline icon API product types and the URL and query of every
    request.
  - `schema`: the input schema of every MCP tool as plain data.
  - `server`: MCP method routing, tool-argument checking and tool dispatch,
    the tool catalog, the replies to `tools/call`, and the law tying each
    schema's required arguments to the tool's missing-parameter refusals.
  - `effects`: the effect chain of the effect panel and the panel's action
    queue, with the law that ids are handed out 1, 2, 3, ... and stay
    distinct.
  - `assignment_table`: which rows the MIDI assignment table lists.
  - `shortcuts`: the shortcut panel's list filter, recording and resets.
  - `canvas`: selecting parts on the module canvas, the connection a socket
    drag makes, deleting the selection, and undo/redo of its edits, with the
    laws that redo undoes undo and undo undoes redo.
  - `module_parts`: part kinds, their sockets and styles, and the built-in
    presets, whose connections join sockets of the same type.
  - `layers`: the layer panel's toolbar, selection and drag-and-drop moves.
  - `app_actions`: how the application's flags change on each action and
    what outside work the action leaves.
  - `seqs`: shared sequence facts.
  - `config`: user preferences and the recent-files rule.
  - `midi`: which controller elements a MIDI message drives.
  - `panels`: small panel states and the dashboard's time text.
- `app/` — the MCP server binary: JSON over stdio, HTTP calls, configuration
  files.
- `tests/` — tests of the library.
