# python_lightningcss

The core of Python bindings for the lightningcss CSS parser, minifier and
bundler, written in Verus.

- `src/` is the verified library: parser flags (`flags`), browser targets
  from browserslist queries (`targets`), parser/minifier/printer settings
  (`options`), the stylesheet pipeline with its staged failures
  (`stylesheet`, `error`), the visitor's callback decisions (`visit`), and
  the plain value types with their text forms (`values`, `color`, `text`).
  Calls into lightningcss and browserslist stand behind small trusted
  functions whose contracts say what the called code does.
- `app/` is the Python extension module built with pyo3: argument defaults,
  Python exceptions, reading and bundling files, the float-valued value
  classes, and the visitor that calls back into Python.
- `tests/` runs the library against the real lightningcss.
