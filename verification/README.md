# webdriver_handlers

The part of a browser's script thread that answers WebDriver commands, with its
decisions verified by Verus.

- `src/` decides. A handler takes the script thread's documents and a command's
  arguments, and says what is replied, or what has to be asked or done first. A
  question is a type of its own, whose method turns the answer into the reply.
- `app/` does. It asks the script engine, the DOM and the resource thread what
  the decisions call for, and sends the replies over IPC.
- `tests/` runs the decisions on small documents.

In `src/`:

| module | what it holds |
| --- | --- |
| `ids` | pipelines, browsing contexts, frame ids |
| `dom` | nodes and elements; shadow-including tree order; look-up by unique id |
| `documents` | the documents of a script thread; what a command names in them |
| `step` | the shape of a decision |
| `script` | running scripts; the values that come back |
| `frames` | the browsing context that a frame id names |
| `find` | finding elements |
| `elements` | reading or focusing one element |
| `rect` | the rectangle of an element |
| `page` | source, title and URL of a document |
| `cookies` | reading, adding and deleting cookies |

The cookies are those of the `cookie` crate. What its accessors return is
trusted, in `cookies`; nothing else is.
